use godot_rust_script::text::{concat_str, ends_with, i64_text, join_strings, starts_with, str_chars, string_from_chars, u64_text};

#[test]
fn decimal_text() {
    assert_eq!(u64_text(0), "0");
    assert_eq!(u64_text(1207), "1207");
    assert_eq!(u64_text(u64::MAX), "18446744073709551615");
    assert_eq!(i64_text(-42), "-42");
    assert_eq!(i64_text(i64::MIN), "-9223372036854775808");
}

#[test]
fn string_helpers() {
    assert!(starts_with("res://a.rs", "res://"));
    assert!(!starts_with("res", "res://"));
    assert!(ends_with("a.rs", ".rs"));
    assert!(!ends_with("a.rsx", ".rs"));
    assert_eq!(concat_str("ab", "cd"), "abcd");
    assert_eq!(string_from_chars(&str_chars("héllo")), "héllo");
    assert_eq!(join_strings(&vec!["a".to_owned(), "b".to_owned()], ", "), "a, b");
    assert_eq!(join_strings(&Vec::new(), ","), "");
}
