use radial_menus::text::{contains_text, trim, white_space};

#[test]
fn trim_removes_unicode_white_space_at_both_ends() {
    assert_eq!(trim("  abc  "), "abc");
    assert_eq!(trim("\u{3000}a b\u{a0}\n"), "a b");
    assert_eq!(trim(""), "");
    assert_eq!(trim(" \t\n "), "");
    assert_eq!(trim("x"), "x");
}

#[test]
fn trim_agrees_with_std() {
    for s in ["\u{85}q\u{2029}", " a\u{200b} ", "\u{1680}\u{2000}z\u{202f}\u{205f}"] {
        assert_eq!(trim(s), s.trim());
    }
}

#[test]
fn white_space_agrees_with_std() {
    for u in 0u32..0x3100 {
        if let Some(c) = char::from_u32(u) {
            assert_eq!(white_space(c), c.is_whitespace(), "{u:#x}");
        }
    }
}

#[test]
fn contains_finds_infixes() {
    assert!(contains_text("/tmp/_MEIPASS123/x", "_MEIPASS"));
    assert!(contains_text("abc", ""));
    assert!(!contains_text("_MEIPAS", "_MEIPASS"));
    assert!(contains_text("aab", "ab"));
}
