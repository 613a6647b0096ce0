//! The song cache: one line per song, its fields separated by NUL
//! characters, and the rules that decide which files of a music directory
//! become cache lines and with which title.

use vstd::prelude::*;
use crate::text::{
    split_seq, split_on, lemma_split_nonempty, lemma_split_append_plain, lemma_split_append_sep,
    lemma_split_plain, lemma_split_then_field,
};
use crate::play_queue_song::{PlayQueueSong, SongView, songs_view};

verus! {

/// The character that separates the fields of a cache line.
pub open spec fn field_sep() -> char {
    '\0'
}

/// The cache line of a song with these fields, newline included.
pub open spec fn cache_entry(
    path: Seq<char>,
    title: Seq<char>,
    album: Seq<char>,
    artist: Seq<char>,
) -> Seq<char> {
    path + seq!['\0'] + title + seq!['\0'] + album + seq!['\0'] + artist + seq!['\n']
}

/// The cache line of a song.
pub open spec fn song_cache_entry(s: SongView) -> Seq<char> {
    cache_entry(s.path, s.title, s.album, s.artists)
}

/// The cache lines of songs, one after the other.
pub open spec fn songs_cache_text(songs: Seq<SongView>) -> Seq<char>
    decreases songs.len(),
{
    if songs.len() == 0 {
        Seq::<char>::empty()
    } else {
        songs_cache_text(songs.drop_last()) + song_cache_entry(songs.last())
    }
}

/// Appends the cache line of a song with these fields to `out`.
fn push_cache_entry(out: &mut String, path: &str, title: &str, album: &str, artist: &str)
    ensures
        final(out)@ == old(out)@ + cache_entry(path@, title@, album@, artist@),
{
    proof {
        reveal_strlit("\x00");
        reveal_strlit("\n");
    }
    out.append(path);
    out.append("\x00");
    out.append(title);
    out.append("\x00");
    out.append(album);
    out.append("\x00");
    out.append(artist);
    out.append("\n");
    assert(out@ =~= old(out)@ + cache_entry(path@, title@, album@, artist@));
}

/// The cache line of a song: path, title, album and artist, separated by
/// NUL characters and ended by a newline.
pub fn process_existing_song_to_string(song: PlayQueueSong) -> (line: String)
    ensures
        line@ == song_cache_entry(song@),
{
    let mut line = String::new();
    push_cache_entry(
        &mut line,
        song.song_path.as_str(),
        song.song_title.as_str(),
        song._song_album.as_str(),
        song._song_artists.as_str(),
    );
    assert(line@ =~= song_cache_entry(song@));
    line
}

/// The cache lines of several songs, in their order.
pub fn process_multiple_songs_to_string(songs: Vec<PlayQueueSong>) -> (text: String)
    ensures
        text@ == songs_cache_text(songs_view(songs@)),
{
    let mut text = String::new();
    let mut i: usize = 0;
    while i < songs.len()
        invariant
            i <= songs.len(),
            text@ == songs_cache_text(songs_view(songs@.take(i as int))),
        decreases songs.len() - i,
    {
        let song = &songs[i];
        push_cache_entry(
            &mut text,
            song.song_path.as_str(),
            song.song_title.as_str(),
            song._song_album.as_str(),
            song._song_artists.as_str(),
        );
        assert(songs_view(songs@.take(i + 1)).drop_last() =~= songs_view(songs@.take(i as int)));
        i = i + 1;
    }
    assert(songs@.take(songs.len() as int) =~= songs@);
    text
}

/// The cache text of songs is the cache lines of the songs one after the
/// other: none give the empty text, one gives its line, and the text of two
/// lists put together is the text of the first followed by that of the second.
pub proof fn lemma_cache_text_concat(a: Seq<SongView>, b: Seq<SongView>)
    ensures
        songs_cache_text(Seq::<SongView>::empty()) == Seq::<char>::empty(),
        a.len() == 1 ==> songs_cache_text(a) == song_cache_entry(a[0]),
        songs_cache_text(a + b) == songs_cache_text(a) + songs_cache_text(b),
    decreases b.len(),
{
    if a.len() == 1 {
        assert(a.drop_last() =~= Seq::<SongView>::empty());
        assert(Seq::<char>::empty() + song_cache_entry(a[0]) =~= song_cache_entry(a[0]));
    }
    if b.len() == 0 {
        assert(a + b =~= a);
        assert(songs_cache_text(a) + Seq::<char>::empty() =~= songs_cache_text(a));
    } else {
        lemma_cache_text_concat(a, b.drop_last());
        assert((a + b).drop_last() =~= a + b.drop_last());
        assert((a + b).last() == b.last());
        assert(songs_cache_text(a) + songs_cache_text(b.drop_last()) + song_cache_entry(b.last())
            =~= songs_cache_text(a) + (songs_cache_text(b.drop_last()) + song_cache_entry(
            b.last(),
        )));
    }
}

/// A cache line (without its newline) splits into at least four fields.
pub open spec fn is_cache_line(line: Seq<char>) -> bool {
    split_seq(line, '\0').len() >= 4
}

/// Whether a line (without its newline) splits into at least four fields.
pub fn is_cache_line_text(line: &str) -> (ok: bool)
    ensures
        ok == is_cache_line(line@),
{
    let fields = split_on(line, '\0');
    fields.len() >= 4
}

/// The song that a cache line (without its newline) describes, at `index`:
/// its first four fields are path, title, album and artist.
pub open spec fn song_of_cache_line(line: Seq<char>, index: usize) -> SongView {
    let f = split_seq(line, '\0');
    SongView {
        path: f[0],
        title: f[1],
        album: f[2],
        artists: f[3],
        image_path: crate::play_queue_song::not_implemented_image_text(),
        index: index,
    }
}

/// Reads a cache line (without its newline) into the song it describes,
/// giving it position `index`. Fields past the fourth are ignored.
pub fn song_from_cache_line(line: &str, index: usize) -> (song: PlayQueueSong)
    requires
        is_cache_line(line@),
    ensures
        song@ == song_of_cache_line(line@, index),
{
    let mut entries = split_on(line, '\0');
    let artist = entries.remove(3);
    let album = entries.remove(2);
    let title = entries.remove(1);
    let path = entries.remove(0);
    PlayQueueSong::from_cache_fields(path, title, album, artist, index)
}

/// The file extensions of the audio formats the player can read.
pub open spec fn supported_extensions() -> Seq<Seq<char>> {
    seq![
        "mp1"@,
        "mp2"@,
        "mp3"@,
        "aac"@,
        "m4a"@,
        "m3u"@,
        "wav"@,
        "ogg"@,
        "opus"@,
        "ac3"@,
        "eac3"@,
        "mlp"@,
        "thd"@,
        "dts"@,
        "wma"@,
        "flac"@,
        "alac"@,
        "spx"@,
        "mpc"@,
        "aa3"@,
        "oma"@,
        "wv"@,
        "mod"@,
        "tta"@,
        "ape"@,
        "ra"@,
        "alaw"@,
        "ulaw"@,
        "amr"@,
        "mid"@,
        "midi"@,
        "lpcm"@,
        "adpcm"@,
        "qcp"@,
        "dv"@,
        "qdm"@,
        "mace"@,
    ]
}

/// The extension of a file path: the text after its last `.`, or the whole
/// path when it has none.
pub open spec fn extension_of(path: Seq<char>) -> Seq<char> {
    split_seq(path, '.').last()
}

/// The file name of a path: the text after its last `/`.
pub open spec fn file_name_of(path: Seq<char>) -> Seq<char> {
    split_seq(path, '/').last()
}

/// The title a cache line gets: the title read from the file, or the file
/// name when the file has no title.
pub open spec fn cache_title_of(path: Seq<char>, title: Seq<char>) -> Seq<char> {
    if title.len() == 0 {
        file_name_of(path)
    } else {
        title
    }
}

/// The title of a file that has no title of its own: its file name up to the
/// first `.`.
pub open spec fn title_from_file_name_of(path: Seq<char>) -> Seq<char> {
    split_seq(file_name_of(path), '.')[0]
}

/// The last piece of `s` split at `sep`.
fn last_piece(s: &str, sep: char) -> (piece: String)
    ensures
        piece@ == split_seq(s@, sep).last(),
{
    let mut pieces = split_on(s, sep);
    proof {
        lemma_split_nonempty(s@, sep);
    }
    let last_index = pieces.len() - 1;
    pieces.remove(last_index)
}

/// The extension of a file path.
pub fn file_extension(path: &str) -> (ext: String)
    ensures
        ext@ == extension_of(path@),
{
    last_piece(path, '.')
}

/// Whether a file is one the player reads as music: its extension is one of
/// the supported audio formats' (letter case counts).
pub fn is_supported_audio_file(path: &str) -> (ok: bool)
    ensures
        ok == supported_extensions().contains(extension_of(path@)),
{
    let ext = file_extension(path);
    let known: Vec<&str> = vec![
        "mp1",
        "mp2",
        "mp3",
        "aac",
        "m4a",
        "m3u",
        "wav",
        "ogg",
        "opus",
        "ac3",
        "eac3",
        "mlp",
        "thd",
        "dts",
        "wma",
        "flac",
        "alac",
        "spx",
        "mpc",
        "aa3",
        "oma",
        "wv",
        "mod",
        "tta",
        "ape",
        "ra",
        "alaw",
        "ulaw",
        "amr",
        "mid",
        "midi",
        "lpcm",
        "adpcm",
        "qcp",
        "dv",
        "qdm",
        "mace",
    ];
    assert(known@.map_values(|e: &str| e@) =~= supported_extensions());
    let mut i: usize = 0;
    while i < known.len()
        invariant
            i <= known@.len(),
            known@.map_values(|e: &str| e@) == supported_extensions(),
            ext@ == extension_of(path@),
            forall|j: int| 0 <= j < i ==> supported_extensions()[j] != ext@,
        decreases known.len() - i,
    {
        assert(known@.map_values(|e: &str| e@)[i as int] == known@[i as int]@);
        if String::from_str(known[i]) == ext {
            return true;
        }
        i = i + 1;
    }
    false
}

/// The cache line for a music file, from the metadata read out of it: a
/// missing title is replaced by the file name.
pub fn song_cache_entry_for_file(path: &str, title: &str, album: &str, artist: &str) -> (line:
    String)
    ensures
        line@ == cache_entry(path@, cache_title_of(path@, title@), album@, artist@),
{
    let mut line = String::new();
    if title.unicode_len() == 0 {
        let name = last_piece(path, '/');
        push_cache_entry(&mut line, path, name.as_str(), album, artist);
    } else {
        push_cache_entry(&mut line, path, title, album, artist);
    }
    line
}

/// The title of a file that has no title of its own: its file name up to the
/// first `.`.
pub fn title_from_file_name(path: &str) -> (title: String)
    ensures
        title@ == title_from_file_name_of(path@),
{
    let name = last_piece(path, '/');
    let mut pieces = split_on(name.as_str(), '.');
    proof {
        lemma_split_nonempty(name@, '.');
    }
    pieces.remove(0)
}

/// The extension of a path is the text after its last `.`.
pub proof fn lemma_extension_after_last_dot(stem: Seq<char>, ext: Seq<char>)
    requires
        !ext.contains('.'),
    ensures
        extension_of(stem + seq!['.'] + ext) == ext,
{
    lemma_split_then_field(stem, ext, '.');
}

/// A file is read as music exactly when the text after the last `.` of its
/// path is one of the 37 audio formats the player knows.
pub proof fn lemma_supported_audio_formats(stem: Seq<char>, ext: Seq<char>)
    requires
        !ext.contains('.'),
    ensures
        supported_extensions().contains(extension_of(stem + seq!['.'] + ext)) <==> (
            ext == "mp1"@
            || ext == "mp2"@
            || ext == "mp3"@
            || ext == "aac"@
            || ext == "m4a"@
            || ext == "m3u"@
            || ext == "wav"@
            || ext == "ogg"@
            || ext == "opus"@
            || ext == "ac3"@
            || ext == "eac3"@
            || ext == "mlp"@
            || ext == "thd"@
            || ext == "dts"@
            || ext == "wma"@
            || ext == "flac"@
            || ext == "alac"@
            || ext == "spx"@
            || ext == "mpc"@
            || ext == "aa3"@
            || ext == "oma"@
            || ext == "wv"@
            || ext == "mod"@
            || ext == "tta"@
            || ext == "ape"@
            || ext == "ra"@
            || ext == "alaw"@
            || ext == "ulaw"@
            || ext == "amr"@
            || ext == "mid"@
            || ext == "midi"@
            || ext == "lpcm"@
            || ext == "adpcm"@
            || ext == "qcp"@
            || ext == "dv"@
            || ext == "qdm"@
            || ext == "mace"@),
{
    lemma_extension_after_last_dot(stem, ext);
    let known = supported_extensions();
    if known.contains(ext) {
        let k = choose|k: int| 0 <= k < known.len() && known[k] == ext;
        assert(0 <= k < 37);
    }
    if ext == "mp1"@
            || ext == "mp2"@
            || ext == "mp3"@
            || ext == "aac"@
            || ext == "m4a"@
            || ext == "m3u"@
            || ext == "wav"@
            || ext == "ogg"@
            || ext == "opus"@
            || ext == "ac3"@
            || ext == "eac3"@
            || ext == "mlp"@
            || ext == "thd"@
            || ext == "dts"@
            || ext == "wma"@
            || ext == "flac"@
            || ext == "alac"@
            || ext == "spx"@
            || ext == "mpc"@
            || ext == "aa3"@
            || ext == "oma"@
            || ext == "wv"@
            || ext == "mod"@
            || ext == "tta"@
            || ext == "ape"@
            || ext == "ra"@
            || ext == "alaw"@
            || ext == "ulaw"@
            || ext == "amr"@
            || ext == "mid"@
            || ext == "midi"@
            || ext == "lpcm"@
            || ext == "adpcm"@
            || ext == "qcp"@
            || ext == "dv"@
            || ext == "qdm"@
            || ext == "mace"@ {
        assert(exists|k: int| 0 <= k < known.len() && known[k] == ext) by {
            if ext == "mp1"@ {
                assert(known[0] == ext);
            }
            if ext == "mp2"@ {
                assert(known[1] == ext);
            }
            if ext == "mp3"@ {
                assert(known[2] == ext);
            }
            if ext == "aac"@ {
                assert(known[3] == ext);
            }
            if ext == "m4a"@ {
                assert(known[4] == ext);
            }
            if ext == "m3u"@ {
                assert(known[5] == ext);
            }
            if ext == "wav"@ {
                assert(known[6] == ext);
            }
            if ext == "ogg"@ {
                assert(known[7] == ext);
            }
            if ext == "opus"@ {
                assert(known[8] == ext);
            }
            if ext == "ac3"@ {
                assert(known[9] == ext);
            }
            if ext == "eac3"@ {
                assert(known[10] == ext);
            }
            if ext == "mlp"@ {
                assert(known[11] == ext);
            }
            if ext == "thd"@ {
                assert(known[12] == ext);
            }
            if ext == "dts"@ {
                assert(known[13] == ext);
            }
            if ext == "wma"@ {
                assert(known[14] == ext);
            }
            if ext == "flac"@ {
                assert(known[15] == ext);
            }
            if ext == "alac"@ {
                assert(known[16] == ext);
            }
            if ext == "spx"@ {
                assert(known[17] == ext);
            }
            if ext == "mpc"@ {
                assert(known[18] == ext);
            }
            if ext == "aa3"@ {
                assert(known[19] == ext);
            }
            if ext == "oma"@ {
                assert(known[20] == ext);
            }
            if ext == "wv"@ {
                assert(known[21] == ext);
            }
            if ext == "mod"@ {
                assert(known[22] == ext);
            }
            if ext == "tta"@ {
                assert(known[23] == ext);
            }
            if ext == "ape"@ {
                assert(known[24] == ext);
            }
            if ext == "ra"@ {
                assert(known[25] == ext);
            }
            if ext == "alaw"@ {
                assert(known[26] == ext);
            }
            if ext == "ulaw"@ {
                assert(known[27] == ext);
            }
            if ext == "amr"@ {
                assert(known[28] == ext);
            }
            if ext == "mid"@ {
                assert(known[29] == ext);
            }
            if ext == "midi"@ {
                assert(known[30] == ext);
            }
            if ext == "lpcm"@ {
                assert(known[31] == ext);
            }
            if ext == "adpcm"@ {
                assert(known[32] == ext);
            }
            if ext == "qcp"@ {
                assert(known[33] == ext);
            }
            if ext == "dv"@ {
                assert(known[34] == ext);
            }
            if ext == "qdm"@ {
                assert(known[35] == ext);
            }
            if ext == "mace"@ {
                assert(known[36] == ext);
            }
        }
    }
}

/// A field that a cache line can hold and give back: no NUL, no newline.
pub open spec fn storable_field(f: Seq<char>) -> bool {
    !f.contains('\0') && !f.contains('\n')
}

/// A song whose path, title, album and artist can all be stored in the cache.
pub open spec fn storable_song(s: SongView) -> bool {
    &&& storable_field(s.path)
    &&& storable_field(s.title)
    &&& storable_field(s.album)
    &&& storable_field(s.artists)
}

/// The cache line of a song without its newline, as a line reader gives it.
pub open spec fn song_cache_line(s: SongView) -> Seq<char> {
    s.path + seq!['\0'] + s.title + seq!['\0'] + s.album + seq!['\0'] + s.artists
}

/// What is written to the cache for a song is read back from its line:
/// the line has the song's path, title, album and artist as its first four
/// fields.
pub proof fn lemma_cache_line_round_trip(s: SongView, index: usize)
    requires
        storable_song(s),
    ensures
        song_cache_entry(s) == song_cache_line(s).push('\n'),
        is_cache_line(song_cache_line(s)),
        song_of_cache_line(song_cache_line(s), index) == (SongView {
            image_path: crate::play_queue_song::not_implemented_image_text(),
            index: index,
            ..s
        }),
{
    let sep = '\0';
    lemma_split_plain(s.path, sep);
    lemma_split_then_field(s.path, s.title, sep);
    lemma_split_then_field(s.path + seq![sep] + s.title, s.album, sep);
    lemma_split_then_field(s.path + seq![sep] + s.title + seq![sep] + s.album, s.artists, sep);
    let f = split_seq(song_cache_line(s), sep);
    assert(f =~= seq![s.path, s.title, s.album, s.artists]);
    assert(song_cache_entry(s) =~= song_cache_line(s).push('\n'));
}

/// The cache lines of songs, as a line reader gives them back.
pub open spec fn songs_cache_lines(songs: Seq<SongView>) -> Seq<Seq<char>> {
    songs.map_values(|s: SongView| song_cache_line(s))
}

/// The cache text of songs splits at its newlines into the songs' lines, in
/// order, followed by the empty rest after the last newline.
pub proof fn lemma_cache_text_lines(songs: Seq<SongView>)
    requires
        forall|i: int| 0 <= i < songs.len() ==> storable_song(#[trigger] songs[i]),
    ensures
        split_seq(songs_cache_text(songs), '\n') == songs_cache_lines(songs).push(
            Seq::<char>::empty(),
        ),
    decreases songs.len(),
{
    let nl = '\n';
    if songs.len() == 0 {
        assert(songs_cache_lines(songs) =~= Seq::<Seq<char>>::empty());
        assert(split_seq(Seq::<char>::empty(), nl) =~= seq![Seq::<char>::empty()]);
    } else {
        let init = songs.drop_last();
        let last = songs.last();
        assert(storable_song(songs[songs.len() - 1]));
        lemma_cache_text_lines(init);
        let line = song_cache_line(last);
        assert(!line.contains(nl)) by {
            if line.contains(nl) {
                let k = choose|k: int| 0 <= k < line.len() && line[k] == nl;
                let p1 = last.path.len() as int;
                let p2 = p1 + 1 + last.title.len();
                let p3 = p2 + 1 + last.album.len();
                if k < p1 {
                    assert(last.path[k] == nl);
                } else if k == p1 {
                } else if k < p2 {
                    assert(last.title[k - p1 - 1] == nl);
                } else if k == p2 {
                } else if k < p3 {
                    assert(last.album[k - p2 - 1] == nl);
                } else if k == p3 {
                } else {
                    assert(last.artists[k - p3 - 1] == nl);
                }
            }
        }
        let before = songs_cache_text(init);
        assert(song_cache_entry(last) =~= line.push(nl));
        assert(songs_cache_text(songs) =~= (before + line).push(nl));
        lemma_split_append_sep(before + line, nl);
        lemma_split_append_plain(before, line, nl);
        let p = songs_cache_lines(init).push(Seq::<char>::empty());
        assert(Seq::<char>::empty() + line =~= line);
        assert(p.update(p.len() - 1, p.last() + line) =~= songs_cache_lines(init).push(line));
        assert(songs_cache_lines(songs) =~= songs_cache_lines(init).push(line));
    }
}

} // verus!
