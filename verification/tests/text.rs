use stacco::text::{decimal_string, is_blank_str, is_white_space_char};

#[test]
fn decimal_renders_like_display() {
    for n in [0u64, 7, 9, 10, 42, 100, 3_600_000, 1_000_000_007, u64::MAX] {
        assert_eq!(decimal_string(n), n.to_string());
    }
}

#[test]
fn whitespace_matches_std() {
    for c in ['\t', '\n', '\u{b}', '\u{c}', '\r', ' ', '\u{85}', '\u{a0}', '\u{1680}', '\u{2000}',
        '\u{200a}', '\u{2028}', '\u{2029}', '\u{202f}', '\u{205f}', '\u{3000}', 'a', '0', '\u{200b}',
        '\u{feff}', '\u{180e}', '\u{1f}', '\u{10ffff}']
    {
        assert_eq!(is_white_space_char(c), c.is_whitespace(), "{c:?}");
    }
    for u in 0u32..0x3100 {
        if let Some(c) = char::from_u32(u) {
            assert_eq!(is_white_space_char(c), c.is_whitespace(), "{u:#x}");
        }
    }
}

#[test]
fn blank_means_trims_to_empty() {
    for s in ["", " ", " \t\r\n", "\u{3000}", "F6", " F6 ", "a b"] {
        assert_eq!(is_blank_str(s), s.trim().is_empty(), "{s:?}");
    }
}
