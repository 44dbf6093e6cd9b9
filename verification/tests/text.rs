use anubis_core::text::{
    ends_with, is_blank, parse_i32_exec, replace, starts_with, strip_prefix, strip_prefixes,
    to_ascii_lowercase, trim,
};

#[test]
fn prefix_and_suffix_tests() {
    assert!(starts_with("data: x", "data:"));
    assert!(!starts_with("dat", "data:"));
    assert!(starts_with("x", ""));
    assert!(ends_with("host/v1", "/v1"));
    assert!(!ends_with("v1", "/v1"));
    assert_eq!(strip_prefix("lang:it", "lang:"), Some("it".to_string()));
    assert_eq!(strip_prefix("voice:x", "lang:"), None);
    assert_eq!(strip_prefixes("data:data: x", "data:"), " x");
    assert_eq!(strip_prefixes("abc", ""), "abc");
}

#[test]
fn lowercase_replace_trim() {
    assert_eq!(to_ascii_lowercase("WebHook ÄÖ"), "webhook ÄÖ");
    assert_eq!(replace("aaa", "aa", "b"), "ba");
    assert_eq!(replace("{x}{x}", "{x}", "1"), "11");
    assert_eq!(trim("\u{3000} hi \u{a0}"), "hi");
    assert!(is_blank(" \t\r\n"));
    assert!(!is_blank(" a "));
}

#[test]
fn integer_parsing_matches_std() {
    for s in ["0", "42", "+7", "-12", "2147483647", "-2147483648", "2147483648", "", "+", "-", "1x", " 1", "007", "-0"] {
        assert_eq!(parse_i32_exec(s), s.parse::<i32>().ok(), "{:?}", s);
    }
}

#[test]
fn replacing_the_empty_pattern_interleaves() {
    assert_eq!(replace("abc", "", "x"), "abc".replace("", "x"));
    assert_eq!(replace("abc", "", "x"), "xaxbxcx");
    assert_eq!(replace("", "", "-"), "-");
    assert_eq!(replace("", "a", "-"), "");
}
