use student_records::text::{str_eq, trim_str};

#[test]
fn trim_strips_both_ends_only() {
    assert_eq!(trim_str("  a b\t\r\n"), "a b");
    assert_eq!(trim_str("token"), "token");
    assert_eq!(trim_str("   "), "");
    assert_eq!(trim_str(""), "");
}

#[test]
fn trim_strips_unicode_whitespace() {
    assert_eq!(trim_str("\u{00a0}a b\u{2003}"), "a b");
    assert_eq!(trim_str("\u{3000}\u{0085}token"), "token");
}

#[test]
fn str_eq_is_character_equality() {
    assert!(str_eq("Bearer ", "Bearer "));
    assert!(!str_eq("Bearer ", "bearer "));
    assert!(!str_eq("a", "ab"));
    assert!(str_eq("", ""));
}
