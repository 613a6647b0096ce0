//! The colour configuration: one colour per line, written in hexadecimal
//! after the line's last `#`, in the order of the roles below.

use vstd::prelude::*;
use crate::text::{
    split_seq, split_on, lemma_split_nonempty, lemma_split_plain, lemma_split_then_field,
};
use crate::numbers::{hex_u32_of, parse_hex_u32, all_digits};

verus! {

/// The roles that the interface gives colours; the colour configuration
/// lists their colours in this order.
#[allow(non_camel_case_types)]
pub enum JedMP_Colors {
    Background_color,
    Text_color,
    Important_text_color,
    Libary_Song_text_color,
    Playqueue_Song_text_color,
    Song_iden_bg_color,
    Song_hover_color,
    Button_bg_color,
    Button_Text_color,
    Button_hover_color,
    Scroll_bar_color,
    Tabs_bg_color,
}

/// How many colour roles there are.
pub open spec fn color_role_count() -> nat {
    12
}

/// The line of the colour configuration that holds a role's colour.
pub open spec fn color_position(c: JedMP_Colors) -> nat {
    match c {
        JedMP_Colors::Background_color => 0,
        JedMP_Colors::Text_color => 1,
        JedMP_Colors::Important_text_color => 2,
        JedMP_Colors::Libary_Song_text_color => 3,
        JedMP_Colors::Playqueue_Song_text_color => 4,
        JedMP_Colors::Song_iden_bg_color => 5,
        JedMP_Colors::Song_hover_color => 6,
        JedMP_Colors::Button_bg_color => 7,
        JedMP_Colors::Button_Text_color => 8,
        JedMP_Colors::Button_hover_color => 9,
        JedMP_Colors::Scroll_bar_color => 10,
        JedMP_Colors::Tabs_bg_color => 11,
    }
}

/// The position of a role's colour in the loaded colour list.
pub fn color_index(c: &JedMP_Colors) -> (i: usize)
    ensures
        i == color_position(*c),
        i < color_role_count(),
{
    match c {
        JedMP_Colors::Background_color => 0,
        JedMP_Colors::Text_color => 1,
        JedMP_Colors::Important_text_color => 2,
        JedMP_Colors::Libary_Song_text_color => 3,
        JedMP_Colors::Playqueue_Song_text_color => 4,
        JedMP_Colors::Song_iden_bg_color => 5,
        JedMP_Colors::Song_hover_color => 6,
        JedMP_Colors::Button_bg_color => 7,
        JedMP_Colors::Button_Text_color => 8,
        JedMP_Colors::Button_hover_color => 9,
        JedMP_Colors::Scroll_bar_color => 10,
        JedMP_Colors::Tabs_bg_color => 11,
    }
}

/// The colour (as `0xRRGGBB`) that the loaded colour list gives a role.
pub fn get_jedmp_color(colors: &Vec<u32>, color: JedMP_Colors) -> (rgb: u32)
    requires
        color_position(color) < colors@.len(),
    ensures
        rgb == colors@[color_position(color) as int],
{
    colors[color_index(&color)]
}

/// The colour that a configuration line holds: the text after its last `#`,
/// read in hexadecimal.
pub open spec fn colorrc_line_value(line: Seq<char>) -> Option<u32> {
    hex_u32_of(split_seq(line, '#').last())
}

/// Reads the colour of one configuration line.
pub fn parse_colorrc_line(line: &str) -> (rgb: Option<u32>)
    ensures
        rgb == colorrc_line_value(line@),
{
    let mut pieces = split_on(line, '#');
    proof {
        lemma_split_nonempty(line@, '#');
    }
    let last_index = pieces.len() - 1;
    let last = pieces.remove(last_index);
    parse_hex_u32(last.as_str())
}

/// Reads the colours of all configuration lines, in order. Every line must
/// hold a colour.
pub fn load_colorrc(lines: &Vec<String>) -> (colors: Vec<u32>)
    requires
        forall|i: int| 0 <= i < lines@.len() ==> (#[trigger] colorrc_line_value(lines@[i]@)) is Some,
    ensures
        colors@.len() == lines@.len(),
        forall|i: int|
            0 <= i < lines@.len() ==> Some(#[trigger] colors@[i]) == colorrc_line_value(
                lines@[i]@,
            ),
{
    let mut colors: Vec<u32> = Vec::new();
    let mut i: usize = 0;
    while i < lines.len()
        invariant
            i <= lines@.len(),
            colors@.len() == i,
            forall|j: int|
                0 <= j < lines@.len() ==> (#[trigger] colorrc_line_value(lines@[j]@)) is Some,
            forall|j: int|
                0 <= j < i ==> Some(#[trigger] colors@[j]) == colorrc_line_value(lines@[j]@),
        decreases lines.len() - i,
    {
        let rgb = parse_colorrc_line(lines[i].as_str());
        match rgb {
            Some(c) => colors.push(c),
            None => {
                assert(colorrc_line_value(lines@[i as int]@) is Some);
                colors.push(0);
            },
        }
        i = i + 1;
    }
    colors
}

/// The role names of the default colour configuration, one per line, each
/// followed by `#` and the colour.
pub open spec fn default_colorrc_names() -> Seq<Seq<char>> {
    seq![
        "Background color:"@,
        "Text_color:"@,
        "Important_text_color:"@,
        "library_song_text_color:"@,
        "playqueue_song_text_color:"@,
        "Song_iden_bg_color:"@,
        "Song_Hover_color:"@,
        "Button_BG_color:"@,
        "Button_Text_color:"@,
        "Button_hover_color:"@,
        "Scroll_bar_color:"@,
        "Tabs_bg_color:"@,
    ]
}

/// The colours of the default colour configuration, in hexadecimal, one per
/// line.
pub open spec fn default_colorrc_colors() -> Seq<Seq<char>> {
    seq![
        "1A1B26"@,
        "CFC9C2"@,
        "F7768E"@,
        "B0D199"@,
        "E0AF68"@,
        "24283B"@,
        "4F1446"@,
        "565F89"@,
        "FF9E64"@,
        "4F1446"@,
        "565F89"@,
        "414868"@,
    ]
}

/// The lines of the default colour configuration: a role name, `#`, a colour.
pub open spec fn default_colorrc_lines() -> Seq<Seq<char>> {
    Seq::new(
        12,
        |i: int| default_colorrc_names()[i] + seq!['#'] + default_colorrc_colors()[i],
    )
}

/// Lines joined with a newline between each two.
pub open spec fn join_lines(lines: Seq<Seq<char>>) -> Seq<char>
    decreases lines.len(),
{
    if lines.len() == 0 {
        Seq::<char>::empty()
    } else if lines.len() == 1 {
        lines[0]
    } else {
        join_lines(lines.drop_last()) + seq!['\n'] + lines.last()
    }
}

/// The colour configuration written when there is none yet: one line per
/// role, in the order of the roles.
pub open spec fn default_colorrc() -> Seq<char> {
    join_lines(default_colorrc_lines())
}

/// The colours of the default configuration, as numbers, in role order.
pub open spec fn default_color_values() -> Seq<u32> {
    seq![0x1A1B26, 0xCFC9C2, 0xF7768E, 0xB0D199, 0xE0AF68, 0x24283B, 0x4F1446, 0x565F89, 0xFF9E64, 0x4F1446, 0x565F89, 0x414868]
}

/// The colour the default configuration gives a role.
pub open spec fn default_color_of(c: JedMP_Colors) -> u32 {
    match c {
        JedMP_Colors::Background_color => 0x1A1B26,
        JedMP_Colors::Text_color => 0xCFC9C2,
        JedMP_Colors::Important_text_color => 0xF7768E,
        JedMP_Colors::Libary_Song_text_color => 0xB0D199,
        JedMP_Colors::Playqueue_Song_text_color => 0xE0AF68,
        JedMP_Colors::Song_iden_bg_color => 0x24283B,
        JedMP_Colors::Song_hover_color => 0x4F1446,
        JedMP_Colors::Button_bg_color => 0x565F89,
        JedMP_Colors::Button_Text_color => 0xFF9E64,
        JedMP_Colors::Button_hover_color => 0x4F1446,
        JedMP_Colors::Scroll_bar_color => 0x565F89,
        JedMP_Colors::Tabs_bg_color => 0x414868,
    }
}

/// The name a role's line carries in the colour configuration, before `#`.
pub open spec fn role_line_name(c: JedMP_Colors) -> Seq<char> {
    match c {
        JedMP_Colors::Background_color => "Background color:"@,
        JedMP_Colors::Text_color => "Text_color:"@,
        JedMP_Colors::Important_text_color => "Important_text_color:"@,
        JedMP_Colors::Libary_Song_text_color => "library_song_text_color:"@,
        JedMP_Colors::Playqueue_Song_text_color => "playqueue_song_text_color:"@,
        JedMP_Colors::Song_iden_bg_color => "Song_iden_bg_color:"@,
        JedMP_Colors::Song_hover_color => "Song_Hover_color:"@,
        JedMP_Colors::Button_bg_color => "Button_BG_color:"@,
        JedMP_Colors::Button_Text_color => "Button_Text_color:"@,
        JedMP_Colors::Button_hover_color => "Button_hover_color:"@,
        JedMP_Colors::Scroll_bar_color => "Scroll_bar_color:"@,
        JedMP_Colors::Tabs_bg_color => "Tabs_bg_color:"@,
    }
}

/// The text of the default colour configuration.
pub fn colorrc_defaults() -> (text: String)
    ensures
        text@ == default_colorrc(),
{
    let names: Vec<&str> = vec![
        "Background color:",
        "Text_color:",
        "Important_text_color:",
        "library_song_text_color:",
        "playqueue_song_text_color:",
        "Song_iden_bg_color:",
        "Song_Hover_color:",
        "Button_BG_color:",
        "Button_Text_color:",
        "Button_hover_color:",
        "Scroll_bar_color:",
        "Tabs_bg_color:",
    ];
    let colors: Vec<&str> = vec![
        "1A1B26",
        "CFC9C2",
        "F7768E",
        "B0D199",
        "E0AF68",
        "24283B",
        "4F1446",
        "565F89",
        "FF9E64",
        "4F1446",
        "565F89",
        "414868",
    ];
    assert(names@.map_values(|n: &str| n@) =~= default_colorrc_names());
    assert(colors@.map_values(|h: &str| h@) =~= default_colorrc_colors());
    let ghost lines = default_colorrc_lines();
    let mut text = String::new();
    let mut i: usize = 0;
    while i < 12
        invariant
            i <= 12,
            names@.len() == 12,
            colors@.len() == 12,
            names@.map_values(|n: &str| n@) == default_colorrc_names(),
            colors@.map_values(|h: &str| h@) == default_colorrc_colors(),
            lines == default_colorrc_lines(),
            text@ == join_lines(lines.take(i as int)),
        decreases 12 - i,
    {
        proof {
            reveal_strlit("#");
            reveal_strlit("\n");
            assert("\n"@ =~= seq!['\n']);
            assert("#"@ =~= seq!['#']);
        }
        let ghost before = text@;
        let ghost n = default_colorrc_names()[i as int];
        let ghost h = default_colorrc_colors()[i as int];
        assert(names@.map_values(|n: &str| n@)[i as int] == names@[i as int]@);
        assert(colors@.map_values(|h: &str| h@)[i as int] == colors@[i as int]@);
        assert(names@[i as int]@ == n);
        assert(colors@[i as int]@ == h);
        if i > 0 {
            text.append("\n");
        }
        let ghost start = text@;
        assert(i > 0 ==> start == before + seq!['\n']);
        assert(i == 0 ==> start == before);
        text.append(names[i]);
        text.append("#");
        text.append(colors[i]);
        proof {
            assert(text@ =~= start + n + seq!['#'] + h);
            assert(lines[i as int] == n + seq!['#'] + h);
            let t = lines.take(i + 1);
            assert(t.last() == lines[i as int]);
            if i == 0 {
                assert(before =~= Seq::<char>::empty());
                assert(text@ =~= lines[0]);
            } else {
                assert(t.drop_last() =~= lines.take(i as int));
                assert(text@ =~= before + seq!['\n'] + lines[i as int]);
            }
        }
        i = i + 1;
    }
    assert(lines.take(12) =~= lines);
    text
}

/// Joined lines free of newlines split back into the same lines.
proof fn lemma_split_joined_lines(lines: Seq<Seq<char>>)
    requires
        lines.len() >= 1,
        forall|i: int| 0 <= i < lines.len() ==> !(#[trigger] lines[i]).contains('\n'),
    ensures
        split_seq(join_lines(lines), '\n') == lines,
    decreases lines.len(),
{
    if lines.len() == 1 {
        lemma_split_plain(lines[0], '\n');
        assert(lines =~= seq![lines[0]]);
    } else {
        let init = lines.drop_last();
        assert forall|i: int| 0 <= i < init.len() implies !(#[trigger] init[i]).contains('\n') by {
            assert(init[i] == lines[i]);
        }
        lemma_split_joined_lines(init);
        assert(!lines[lines.len() - 1].contains('\n'));
        lemma_split_then_field(join_lines(init), lines.last(), '\n');
        assert(init.push(lines.last()) =~= lines);
    }
}

/// A line `name#color`, with no `#` in the name or the colour, holds that
/// colour.
proof fn lemma_color_line_value(name: Seq<char>, color: Seq<char>)
    requires
        !name.contains('#'),
        !color.contains('#'),
    ensures
        colorrc_line_value(name + seq!['#'] + color) == hex_u32_of(color),
{
    lemma_split_plain(name, '#');
    lemma_split_then_field(name, color, '#');
}

/// The default colours, read in hexadecimal, are the default colour values.
#[verifier::rlimit(80)]
#[verifier::spinoff_prover]
proof fn lemma_default_color_values()
    ensures
        forall|i: int|
            0 <= i < 12 ==> hex_u32_of(#[trigger] default_colorrc_colors()[i]) == Some(
                default_color_values()[i],
            ),
{
    reveal_strlit("1A1B26");
    reveal_strlit("CFC9C2");
    reveal_strlit("F7768E");
    reveal_strlit("B0D199");
    reveal_strlit("E0AF68");
    reveal_strlit("24283B");
    reveal_strlit("4F1446");
    reveal_strlit("565F89");
    reveal_strlit("FF9E64");
    reveal_strlit("4F1446");
    reveal_strlit("565F89");
    reveal_strlit("414868");
    reveal_with_fuel(crate::numbers::digits_value, 7);
    assert(hex_u32_of("1A1B26"@) == Some(0x1A1B26u32)) by {
        assert("1A1B26"@.skip(0) =~= "1A1B26"@);
        assert(all_digits("1A1B26"@, 16));
    }
    assert(hex_u32_of("24283B"@) == Some(0x24283Bu32)) by {
        assert("24283B"@.skip(0) =~= "24283B"@);
        assert(all_digits("24283B"@, 16));
    }
    assert(hex_u32_of("414868"@) == Some(0x414868u32)) by {
        assert("414868"@.skip(0) =~= "414868"@);
        assert(all_digits("414868"@, 16));
    }
    assert(hex_u32_of("4F1446"@) == Some(0x4F1446u32)) by {
        assert("4F1446"@.skip(0) =~= "4F1446"@);
        assert(all_digits("4F1446"@, 16));
    }
    assert(hex_u32_of("565F89"@) == Some(0x565F89u32)) by {
        assert("565F89"@.skip(0) =~= "565F89"@);
        assert(all_digits("565F89"@, 16));
    }
    assert(hex_u32_of("B0D199"@) == Some(0xB0D199u32)) by {
        assert("B0D199"@.skip(0) =~= "B0D199"@);
        assert(all_digits("B0D199"@, 16));
    }
    assert(hex_u32_of("CFC9C2"@) == Some(0xCFC9C2u32)) by {
        assert("CFC9C2"@.skip(0) =~= "CFC9C2"@);
        assert(all_digits("CFC9C2"@, 16));
    }
    assert(hex_u32_of("E0AF68"@) == Some(0xE0AF68u32)) by {
        assert("E0AF68"@.skip(0) =~= "E0AF68"@);
        assert(all_digits("E0AF68"@, 16));
    }
    assert(hex_u32_of("F7768E"@) == Some(0xF7768Eu32)) by {
        assert("F7768E"@.skip(0) =~= "F7768E"@);
        assert(all_digits("F7768E"@, 16));
    }
    assert(hex_u32_of("FF9E64"@) == Some(0xFF9E64u32)) by {
        assert("FF9E64"@.skip(0) =~= "FF9E64"@);
        assert(all_digits("FF9E64"@, 16));
    }
}

/// No default line holds a newline, and no role name or colour holds `#`.
proof fn lemma_default_lines_plain()
    ensures
        forall|i: int|
            0 <= i < 12 ==> {
                &&& !(#[trigger] default_colorrc_names()[i]).contains('#')
                &&& !default_colorrc_colors()[i].contains('#')
                &&& !default_colorrc_lines()[i].contains('\n')
            },
{
    reveal_strlit("Background color:");
    reveal_strlit("Text_color:");
    reveal_strlit("Important_text_color:");
    reveal_strlit("library_song_text_color:");
    reveal_strlit("playqueue_song_text_color:");
    reveal_strlit("Song_iden_bg_color:");
    reveal_strlit("Song_Hover_color:");
    reveal_strlit("Button_BG_color:");
    reveal_strlit("Button_Text_color:");
    reveal_strlit("Button_hover_color:");
    reveal_strlit("Scroll_bar_color:");
    reveal_strlit("Tabs_bg_color:");
    reveal_strlit("1A1B26");
    reveal_strlit("CFC9C2");
    reveal_strlit("F7768E");
    reveal_strlit("B0D199");
    reveal_strlit("E0AF68");
    reveal_strlit("24283B");
    reveal_strlit("4F1446");
    reveal_strlit("565F89");
    reveal_strlit("FF9E64");
    reveal_strlit("4F1446");
    reveal_strlit("565F89");
    reveal_strlit("414868");
    assert forall|i: int| 0 <= i < 12 implies {
        &&& !(#[trigger] default_colorrc_names()[i]).contains('#')
        &&& !default_colorrc_colors()[i].contains('#')
        &&& !default_colorrc_lines()[i].contains('\n')
    } by {
        let n = default_colorrc_names()[i];
        let h = default_colorrc_colors()[i];
        let l = default_colorrc_lines()[i];
        assert(!n.contains('\n') && !h.contains('\n'));
        assert(l == n + seq!['#'] + h);
        if l.contains('\n') {
            let k = choose|k: int| 0 <= k < l.len() && l[k] == '\n';
            if k < n.len() {
                assert(n[k] == '\n');
            } else if k > n.len() {
                assert(h[k - n.len() - 1] == '\n');
            }
        }
    }
}

/// The default colour configuration reads back, line by line, as one colour
/// per role, in the order of the roles: the line a role's colour is looked up
/// on is the line named for that role, and holds that role's default colour.
#[verifier::rlimit(40)]
pub proof fn lemma_default_colorrc_roles()
    ensures
        forall|c: JedMP_Colors|
            (#[trigger] default_colorrc_lines()[color_position(c) as int]) == role_line_name(c)
                + seq!['#'] + default_colorrc_colors()[color_position(c) as int],
        split_seq(default_colorrc(), '\n').len() == color_role_count(),
        forall|i: int|
            0 <= i < 12 ==> colorrc_line_value(#[trigger] split_seq(default_colorrc(), '\n')[i])
                == Some(default_color_values()[i]),
        forall|c: JedMP_Colors|
            colorrc_line_value(
                #[trigger] split_seq(default_colorrc(), '\n')[color_position(c) as int],
            ) == Some(default_color_of(c)),
{
    lemma_default_lines_plain();
    lemma_default_color_values();
    let lines = default_colorrc_lines();
    assert forall|i: int| 0 <= i < lines.len() implies !(#[trigger] lines[i]).contains('\n') by {
        assert(0 <= i < 12);
    }
    lemma_split_joined_lines(lines);
    assert forall|i: int| 0 <= i < 12 implies colorrc_line_value(#[trigger] lines[i])
        == Some(default_color_values()[i]) by {
        assert(!default_colorrc_names()[i].contains('#'));
        lemma_color_line_value(default_colorrc_names()[i], default_colorrc_colors()[i]);
    }
    assert forall|c: JedMP_Colors|
        colorrc_line_value(#[trigger] split_seq(default_colorrc(), '\n')[color_position(c) as int])
            == Some(default_color_of(c)) by {
        let p = color_position(c) as int;
        assert(0 <= p < 12);
        assert(colorrc_line_value(lines[p]) == Some(default_color_values()[p]));
    }
    assert forall|c: JedMP_Colors|
        (#[trigger] default_colorrc_lines()[color_position(c) as int]) == role_line_name(c)
            + seq!['#'] + default_colorrc_colors()[color_position(c) as int] by {
        let p = color_position(c) as int;
        assert(0 <= p < 12);
    }
}

} // verus!
