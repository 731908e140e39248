use boru::text::{
    byte_len, comes_before, contains, decimal_text, first_chars, join, parse_u16, replace,
    slice_bytes, starts_with, to_ascii_lowercase, trim,
};

#[test]
fn numbers_are_read_back() {
    for n in [0u16, 7, 10, 99, 3000, 65535] {
        assert_eq!(parse_u16(&decimal_text(u64::from(n))), Some(n));
    }
    assert_eq!(decimal_text(u64::MAX), "18446744073709551615");
    assert_eq!(parse_u16("65536"), None);
    assert_eq!(parse_u16("-1"), None);
    assert_eq!(parse_u16("+"), None);
}

#[test]
fn texts_are_cut_between_characters() {
    assert_eq!(byte_len("aä€"), 6);
    assert_eq!(slice_bytes("aä€", 1, 3), "ä");
    assert_eq!(first_chars("aä€b", 3), "aä€");
    assert_eq!(first_chars("a", 3), "a");
    assert_eq!(trim("\u{2003} x y \u{85}"), "x y");
    assert_eq!(trim(" \t"), "");
}

#[test]
fn texts_are_searched_and_changed() {
    assert!(contains("abcabd", "abd"));
    assert!(contains("a", ""));
    assert!(!contains("ab", "abc"));
    assert!(starts_with("image/png", "image/"));
    assert_eq!(replace("aaa", "aa", "b"), "ba");
    assert_eq!(to_ascii_lowercase("ÄBC"), "Äbc");
    assert_eq!(join(&vec!["a".to_string(), "b".to_string()], ", "), "a, b");
    assert!(comes_before("a", "ab"));
    assert!(!comes_before("b", "ab"));
}
