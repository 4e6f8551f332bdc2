use alleycat::text::{is_blank, is_white_space, push_decimal, push_hex_byte, same_text};

#[test]
fn numbers_are_written_as_the_standard_library_writes_them() {
    for n in [0u32, 1, 9, 10, 42, 100, 4660, 65535, 1_048_577, u32::MAX] {
        let mut out = "n=".to_string();
        push_decimal(&mut out, n);
        assert_eq!(out, format!("n={n}"));
    }
    for b in 0..=255u8 {
        let mut out = "b=".to_string();
        push_hex_byte(&mut out, b);
        assert_eq!(out, format!("b={b:02x}"));
    }
}

#[test]
fn white_space_is_that_of_unicode() {
    for c in '\u{0}'..=char::MAX {
        assert_eq!(is_white_space(c), c.is_whitespace(), "{c:?}");
    }
}

#[test]
fn blank_is_what_trimming_empties() {
    for s in ["", " ", "\t\r\n", "\u{3000}\u{85}", " x ", "x", "\u{200b}", "/tmp"] {
        assert_eq!(is_blank(s), s.trim().is_empty(), "{s:?}");
    }
}

#[test]
fn texts_are_compared_whole() {
    assert!(same_text("", ""));
    assert!(same_text("droid-pty", "droid-pty"));
    assert!(!same_text("droid", "droid-pty"));
    assert!(!same_text("droid-pty", "droid_pty"));
    assert!(same_text("\u{e9}\u{1f408}", "\u{e9}\u{1f408}"));
    assert!(!same_text("\u{e9}", "e"));
}
