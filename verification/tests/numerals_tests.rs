use workspace_events::numerals::{i64_to_string, parse_i32, u64_to_string};

#[test]
fn small_numbers_format() {
    assert_eq!(u64_to_string(0), "0");
    assert_eq!(u64_to_string(7), "7");
    assert_eq!(i64_to_string(10), "10");
    assert_eq!(i64_to_string(123), "123");
}

#[test]
fn negative_numbers_format() {
    assert_eq!(i64_to_string(-1), "-1");
    assert_eq!(i64_to_string(-123), "-123");
}

#[test]
fn extreme_numbers_format() {
    assert_eq!(i64_to_string(i64::MAX), "9223372036854775807");
    assert_eq!(i64_to_string(i64::MIN), "-9223372036854775808");
    assert_eq!(u64_to_string(u64::MAX), "18446744073709551615");
}

#[test]
fn parse_accepts_plain_and_signed() {
    assert_eq!(parse_i32("0"), Some(0));
    assert_eq!(parse_i32("42"), Some(42));
    assert_eq!(parse_i32("-42"), Some(-42));
    assert_eq!(parse_i32("+42"), Some(42));
    assert_eq!(parse_i32("007"), Some(7));
}

#[test]
fn parse_range_limits() {
    assert_eq!(parse_i32("2147483647"), Some(i32::MAX));
    assert_eq!(parse_i32("-2147483648"), Some(i32::MIN));
    assert_eq!(parse_i32("2147483648"), None);
    assert_eq!(parse_i32("-2147483649"), None);
    assert_eq!(parse_i32("99999999999999999999"), None);
}

#[test]
fn parse_rejects_malformed() {
    assert_eq!(parse_i32(""), None);
    assert_eq!(parse_i32("-"), None);
    assert_eq!(parse_i32("+"), None);
    assert_eq!(parse_i32("12a"), None);
    assert_eq!(parse_i32("a12"), None);
    assert_eq!(parse_i32("1 2"), None);
    assert_eq!(parse_i32("--1"), None);
    assert_eq!(parse_i32("terminal"), None);
}

#[test]
fn parse_agrees_with_std() {
    for s in ["0", "-5", "+5", "123456", "-2147483648", "2147483648", "x", "", "10e2"] {
        assert_eq!(parse_i32(s), s.parse::<i32>().ok(), "disagreement on {:?}", s);
    }
}
