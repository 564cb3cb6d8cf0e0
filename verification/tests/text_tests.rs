use zipline_upload::text::{
    contains, decimal_string, ends_with, join, parse_u32, replace_all, starts_with, strip_suffix,
    trim,
};

#[test]
fn decimal_string_writes_digits() {
    assert_eq!(decimal_string(0), "0");
    assert_eq!(decimal_string(7), "7");
    assert_eq!(decimal_string(120), "120");
    assert_eq!(decimal_string(4294967295), "4294967295");
}

#[test]
fn parse_u32_accepts_what_std_accepts() {
    assert_eq!(parse_u32("42"), Some(42));
    assert_eq!(parse_u32("+42"), Some(42));
    assert_eq!(parse_u32("007"), Some(7));
    assert_eq!(parse_u32("4294967295"), Some(4294967295));
}

#[test]
fn parse_u32_refuses_what_std_refuses() {
    for s in ["", "+", "-1", "4294967296", " 5", "5 ", "1a", "++1"] {
        assert_eq!(parse_u32(s), None, "{s}");
        assert_eq!(s.parse::<u32>().ok(), None, "{s}");
    }
}

#[test]
fn parse_u32_agrees_with_std() {
    for s in ["0", "+0", "10", "99999999999", "12x", "x12", "\u{0661}"] {
        assert_eq!(parse_u32(s), s.parse::<u32>().ok(), "{s}");
    }
}

#[test]
fn decimal_then_parse_round_trips() {
    for n in [0u32, 1, 9, 10, 65535, 4294967295] {
        assert_eq!(parse_u32(&decimal_string(n)), Some(n));
    }
}

#[test]
fn trim_removes_unicode_white_space() {
    assert_eq!(trim("  png\t"), "png");
    assert_eq!(trim("\u{3000}a b\u{a0}"), "a b");
    assert_eq!(trim("   "), "");
    assert_eq!(trim(""), "");
    for s in [" x ", "\u{2028}y\u{85}", "\u{200b}z"] {
        assert_eq!(trim(s), s.trim());
    }
}

#[test]
fn substring_tests() {
    assert!(contains("plasma-KDE".to_lowercase().as_str(), "kde"));
    assert!(!contains("gnome", "kde"));
    assert!(contains("abc", ""));
    assert!(starts_with("--kde", "--"));
    assert!(!starts_with("-h", "--"));
    assert!(ends_with("https://a/api/upload", "/api/upload"));
    assert!(!ends_with("pload", "/api/upload"));
}

#[test]
fn strip_suffix_cuts_the_end() {
    assert_eq!(strip_suffix("x/api/upload", "/api/upload"), Some("x".to_string()));
    assert_eq!(strip_suffix("x/api/upload/", "/api/upload"), None);
}

#[test]
fn replace_all_replaces_every_occurrence() {
    assert_eq!(replace_all("a{x}b{x}", "{x}", "Y"), "aYbY");
    assert_eq!(replace_all("aaa", "aa", "b"), "ba");
    assert_eq!(replace_all("none", "{x}", "Y"), "none");
    assert_eq!(replace_all("aaa", "aa", "b"), "aaa".replace("aa", "b"));
}

#[test]
fn join_puts_separator_between() {
    let v = vec!["png".to_string(), "jpg".to_string(), "gif".to_string()];
    assert_eq!(join(&v, ", "), "png, jpg, gif");
    assert_eq!(join(&Vec::new(), ", "), "");
    assert_eq!(join(&vec!["a".to_string()], ", "), "a");
}
