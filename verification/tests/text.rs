use music_worker::text::{trimmed, white_space};

#[test]
fn trims_both_ends() {
    assert_eq!(trimmed("  hello world \n"), "hello world");
    assert_eq!(trimmed("song"), "song");
}

#[test]
fn trims_unicode_white_space() {
    assert_eq!(trimmed("\u{3000}\u{a0}x y\u{2028}\u{85}"), "x y");
}

#[test]
fn blank_becomes_empty() {
    assert_eq!(trimmed(" \t\r\n "), "");
    assert_eq!(trimmed(""), "");
}

#[test]
fn white_space_agrees_with_std() {
    for code in 0u32..0x3100 {
        if let Some(c) = char::from_u32(code) {
            assert_eq!(white_space(c), c.is_whitespace(), "{code:#x}");
        }
    }
    assert!(!white_space('\u{200b}'));
    assert!(!white_space('x'));
}

#[test]
fn trimmed_agrees_with_std() {
    for s in ["  a b  ", "\u{2003}é\u{2003}", "x\u{180e}", "\u{feff}y", "\n\n"] {
        assert_eq!(trimmed(s), s.trim());
    }
}
