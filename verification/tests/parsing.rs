use jedmp::colors_handler::{
    colorrc_defaults, get_jedmp_color, load_colorrc, parse_colorrc_line, JedMP_Colors,
};
use jedmp::numbers::{parse_hex_u32, parse_i32, parse_i64};

#[test]
fn hex_numbers() {
    assert_eq!(parse_hex_u32("1A1B26"), Some(0x1A1B26));
    assert_eq!(parse_hex_u32("ff"), Some(255));
    assert_eq!(parse_hex_u32("+10"), Some(16));
    assert_eq!(parse_hex_u32("ffffffff"), Some(u32::MAX));
    assert_eq!(parse_hex_u32("100000000"), None);
    assert_eq!(parse_hex_u32(""), None);
    assert_eq!(parse_hex_u32("+"), None);
    assert_eq!(parse_hex_u32("-1"), None);
    assert_eq!(parse_hex_u32("12g"), None);
    assert_eq!(parse_hex_u32(" 12"), None);
    assert_eq!(parse_hex_u32("0000000000ff"), Some(255));
}

#[test]
fn hex_numbers_agree_with_std() {
    for s in ["0", "7f", "DEADBEEF", "+a", "-a", "", "x", "1_0", "fffffffff"] {
        assert_eq!(parse_hex_u32(s), u32::from_str_radix(s, 16).ok(), "{s}");
    }
}

#[test]
fn decimal_numbers() {
    assert_eq!(parse_i64("1234"), Some(1234));
    assert_eq!(parse_i64("-15"), Some(-15));
    assert_eq!(parse_i64("+7"), Some(7));
    assert_eq!(parse_i64("9223372036854775807"), Some(i64::MAX));
    assert_eq!(parse_i64("-9223372036854775808"), Some(i64::MIN));
    assert_eq!(parse_i64("9223372036854775808"), None);
    assert_eq!(parse_i64("-"), None);
    assert_eq!(parse_i64(""), None);
    assert_eq!(parse_i64(" 1"), None);
    assert_eq!(parse_i32("2147483647"), Some(i32::MAX));
    assert_eq!(parse_i32("-2147483648"), Some(i32::MIN));
    assert_eq!(parse_i32("2147483648"), None);
    assert_eq!(parse_i32("50"), Some(50));
}

#[test]
fn decimal_numbers_agree_with_std() {
    for s in ["0", "-0", "+0", "12a", "--1", "+-1", "99999999999999999999", "-2147483649", "007"] {
        assert_eq!(parse_i64(s), s.parse::<i64>().ok(), "{s}");
        assert_eq!(parse_i32(s), s.parse::<i32>().ok(), "{s}");
    }
}

#[test]
fn colorrc_line_takes_text_after_last_hash() {
    assert_eq!(parse_colorrc_line("Text_color:#CFC9C2"), Some(0xCFC9C2));
    assert_eq!(parse_colorrc_line("#12#34"), Some(0x34));
    assert_eq!(parse_colorrc_line("ABC"), Some(0xABC));
    assert_eq!(parse_colorrc_line("Text_color:#"), None);
}

#[test]
fn default_colorrc_gives_one_color_per_role() {
    let text = colorrc_defaults();
    let lines: Vec<String> = text.lines().map(|l| l.to_string()).collect();
    assert_eq!(lines.len(), 12);
    let colors = load_colorrc(&lines);
    assert_eq!(
        colors,
        vec![
            0x1A1B26, 0xCFC9C2, 0xF7768E, 0xB0D199, 0xE0AF68, 0x24283B, 0x4F1446, 0x565F89,
            0xFF9E64, 0x4F1446, 0x565F89, 0x414868
        ]
    );
    assert_eq!(get_jedmp_color(&colors, JedMP_Colors::Background_color), 0x1A1B26);
    assert_eq!(get_jedmp_color(&colors, JedMP_Colors::Text_color), 0xCFC9C2);
    assert_eq!(get_jedmp_color(&colors, JedMP_Colors::Libary_Song_text_color), 0xB0D199);
    assert_eq!(get_jedmp_color(&colors, JedMP_Colors::Tabs_bg_color), 0x414868);
}

#[test]
fn default_colorrc_text_is_twelve_lines() {
    let text = colorrc_defaults();
    assert!(text.starts_with("Background color:#1A1B26\nText_color:#CFC9C2\n"));
    assert!(text.ends_with("Scroll_bar_color:#565F89\nTabs_bg_color:#414868"));
    assert_eq!(text.split('\n').count(), 12);
}
