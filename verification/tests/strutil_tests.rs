use ai_pod::strutil::{
    parse_u64, str_contains, str_ends_with, str_eq, str_starts_with, str_trim_leading,
    str_trim_trailing, u64_to_string,
};

#[test]
fn number_formatting_is_exact() {
    assert_eq!(u64_to_string(0), "0");
    assert_eq!(u64_to_string(7), "7");
    assert_eq!(u64_to_string(9876), "9876");
    assert_eq!(u64_to_string(u64::MAX), "18446744073709551615");
}

#[test]
fn parse_round_trips_formatting() {
    for n in [0u64, 1, 42, 9876, 1000000, u64::MAX] {
        assert_eq!(parse_u64(&u64_to_string(n)), Some(n));
    }
}

#[test]
fn parse_rejects_non_digit_text() {
    assert_eq!(parse_u64(""), None);
    assert_eq!(parse_u64("12a"), None);
    assert_eq!(parse_u64("-5"), None);
    assert_eq!(parse_u64(" 5"), None);
}

#[test]
fn parse_rejects_overflow() {
    assert_eq!(parse_u64("18446744073709551616"), None);
    assert_eq!(parse_u64("18446744073709551615"), Some(u64::MAX));
    assert_eq!(parse_u64("99999999999999999999999"), None);
}

#[test]
fn string_predicates() {
    assert!(str_eq("abc", "abc"));
    assert!(!str_eq("abc", "abd"));
    assert!(!str_eq("abc", "ab"));
    assert!(str_contains("hello world", "lo wo"));
    assert!(!str_contains("hello", "world"));
    assert!(str_contains("abc", ""));
    assert!(str_starts_with("hello", "he"));
    assert!(!str_starts_with("hello", "el"));
    assert!(str_ends_with("hello", "llo"));
    assert!(!str_ends_with("hello", "ell"));
}

#[test]
fn trimming_single_characters() {
    assert_eq!(str_trim_leading("---abc", '-'), "abc");
    assert_eq!(str_trim_trailing("abc---", '-'), "abc");
    assert_eq!(str_trim_leading("abc", '-'), "abc");
    assert_eq!(str_trim_trailing("---", '-'), "");
}
