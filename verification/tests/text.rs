use soldier_core::text::{contains, ends_with, equals, i64_text, join, parse_i64, starts_with, trim, u128_text};

#[test]
fn decimal_text_of_numbers() {
    assert_eq!(u128_text(0), "0");
    assert_eq!(u128_text(7), "7");
    assert_eq!(u128_text(1234567890), "1234567890");
    assert_eq!(u128_text(u128::MAX), u128::MAX.to_string());
    assert_eq!(i64_text(-42), "-42");
    assert_eq!(i64_text(i64::MIN), "-9223372036854775808");
    assert_eq!(i64_text(i64::MAX), "9223372036854775807");
}

#[test]
fn parse_accepts_signed_decimals() {
    assert_eq!(parse_i64("42"), Some(42));
    assert_eq!(parse_i64("-42"), Some(-42));
    assert_eq!(parse_i64("+7"), Some(7));
    assert_eq!(parse_i64("007"), Some(7));
    assert_eq!(parse_i64("9223372036854775807"), Some(i64::MAX));
    assert_eq!(parse_i64("-9223372036854775808"), Some(i64::MIN));
}

#[test]
fn parse_rejects_what_std_rejects() {
    for s in ["", "-", "+", "12a", " 1", "1 ", "9223372036854775808", "-9223372036854775809", "١٢", "99999999999999999999999999999999999999999999"] {
        assert_eq!(parse_i64(s), s.parse::<i64>().ok(), "input {s:?}");
        assert_eq!(parse_i64(s), None, "input {s:?}");
    }
}

#[test]
fn text_parses_back() {
    for n in [0i64, 1, -1, 10, -10, 123456789, i64::MAX, i64::MIN] {
        assert_eq!(parse_i64(&i64_text(n)), Some(n));
    }
}

#[test]
fn substring_tests() {
    assert!(contains("roblox user bio: alpha beta gamma!", "alpha beta gamma"));
    assert!(!contains("alpha  beta gamma", "alpha beta gamma"));
    assert!(contains("anything", ""));
    assert!(!contains("ab", "abc"));
    assert!(starts_with("verify::code", "verify::"));
    assert!(!starts_with("accounts::0", "verify::"));
    assert!(ends_with("verify::code::cancel", "cancel"));
    assert!(!ends_with("verify::code::done", "cancel"));
    assert!(equals("accounts::0::view_cookie", "accounts::0::view_cookie"));
    assert!(!equals("accounts::0::view_cookie", "accounts::0::view_cooki"));
}

#[test]
fn trim_matches_std() {
    for s in ["  a b \t\n", "\u{3000}x\u{a0}", "", "   ", "plain", "\u{2028}y\u{85}"] {
        assert_eq!(trim(s), s.trim());
    }
}

#[test]
fn join_with_separator() {
    let parts = vec!["a".to_string(), "b".to_string(), "c".to_string()];
    assert_eq!(join(&parts, "\n"), "a\nb\nc");
    assert_eq!(join(&vec![], ", "), "");
    assert_eq!(join(&vec!["one".to_string()], ", "), "one");
}
