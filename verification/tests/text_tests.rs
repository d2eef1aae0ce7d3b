use bugtrack::roles::{default_role, is_known_role};
use bugtrack::text::{is_blank, is_space_char, same_text};

#[test]
fn blank_fields() {
    assert!(is_blank(""));
    assert!(is_blank(" "));
    assert!(is_blank(" \t\r\n"));
    assert!(is_blank("\u{a0}\u{2003}\u{3000}"));
    assert!(!is_blank("a"));
    assert!(!is_blank("  a  "));
    assert!(!is_blank("\u{200b}"));
    assert!(!is_blank("\0"));
}

#[test]
fn blank_agrees_with_trimming() {
    for s in ["", " ", "x", " x ", "\u{85}", "\u{1680}\u{2028}\u{2029}\u{202f}\u{205f}", "\u{feff}", "\u{1c}"] {
        assert_eq!(is_blank(s), s.trim().is_empty());
    }
}

#[test]
fn white_space_agrees_with_the_standard_library() {
    let mut n: u32 = 0;
    while n <= 0x3100 {
        if let Some(c) = char::from_u32(n) {
            assert_eq!(is_space_char(c), c.is_whitespace());
        }
        n += 1;
    }
    assert!(!is_space_char('\u{10ffff}'));
}

#[test]
fn texts_compare_by_their_characters() {
    assert!(same_text("", ""));
    assert!(same_text("admin", "admin"));
    assert!(!same_text("admin", "Admin"));
    assert!(!same_text("admin", "admin "));
}

#[test]
fn roles_form_a_closed_set() {
    assert!(is_known_role("admin"));
    assert!(is_known_role("developer"));
    assert!(!is_known_role("Admin"));
    assert!(!is_known_role("root"));
    assert!(!is_known_role(""));
    assert_eq!(default_role(), "developer");
}
