use context_server::text::{
    characters, decimal_text, is_white_space, joined, starts_with, strip_prefix, trim,
};

#[test]
fn white_space_is_the_unicode_property() {
    for code in 0..=0x10ffffu32 {
        if let Some(c) = char::from_u32(code) {
            assert_eq!(is_white_space(c), c.is_whitespace(), "{:x}", code);
        }
    }
}

#[test]
fn trim_agrees_with_the_standard_library() {
    for s in [
        "", " ", "a", " a ", "\t\r\n", "data: x\r\n", "\u{a0}x\u{3000}", "a b", "  a  b  ", "é\n",
        "\u{feff}x", "x\u{200b}", "\u{85}\u{2028}y z\u{205f}",
    ] {
        assert_eq!(trim(s), s.trim(), "{:?}", s);
    }
}

#[test]
fn prefixes_are_compared_by_character() {
    assert!(starts_with("application/json; charset=utf-8", "application/json"));
    assert!(starts_with("", ""));
    assert!(starts_with("abc", ""));
    assert!(!starts_with("ab", "abc"));
    assert!(!starts_with("xbc", "abc"));
    assert!(starts_with("éa", "é"));
    assert_eq!(strip_prefix("data: x", "data: "), Some("x"));
    assert_eq!(strip_prefix("data: ", "data: "), Some(""));
    assert_eq!(strip_prefix("data:x", "data: "), None);
    assert_eq!(strip_prefix("éa", "é"), Some("a"));
}

#[test]
fn decimal_numerals() {
    for n in [0u64, 1, 9, 10, 11, 99, 100, 1000, 60000, 1234567890, u64::MAX] {
        assert_eq!(decimal_text(n), n.to_string());
    }
}

#[test]
fn characters_and_joining() {
    assert_eq!(characters("aé漢"), vec!['a', 'é', '漢']);
    assert_eq!(joined("a", "é"), "aé");
    assert_eq!(joined("", ""), "");
}
