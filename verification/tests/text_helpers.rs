use booklog::text::{
    eq_ignore_ascii_case, i64_to_string, join, parse_i32, parse_i64, parse_u32, trim,
    u64_to_string,
};
use booklog::time::{MAX_UTC_SECONDS, MIN_UTC_SECONDS, UtcTimestamp};
use chrono::{DateTime, Utc};

#[test]
fn integer_parsing_follows_std() {
    for s in ["0", "+12", "-12", "007", "4294967295", "4294967296", "", "+", "-", "1a", " 1", "-0"] {
        assert_eq!(parse_u32(s), s.parse::<u32>().ok(), "u32 {s:?}");
        assert_eq!(parse_i32(s), s.parse::<i32>().ok(), "i32 {s:?}");
        assert_eq!(parse_i64(s), s.parse::<i64>().ok(), "i64 {s:?}");
    }
    for s in ["2147483647", "2147483648", "-2147483648", "-2147483649", "9223372036854775807",
        "9223372036854775808", "-9223372036854775808", "-9223372036854775809"] {
        assert_eq!(parse_i32(s), s.parse::<i32>().ok(), "i32 {s:?}");
        assert_eq!(parse_i64(s), s.parse::<i64>().ok(), "i64 {s:?}");
    }
}

#[test]
fn integer_rendering_follows_std() {
    for n in [0u64, 9, 10, 1234567890, u64::MAX] {
        assert_eq!(u64_to_string(n), n.to_string());
    }
    for n in [0i64, -1, 42, i64::MIN, i64::MAX] {
        assert_eq!(i64_to_string(n), n.to_string());
    }
}

#[test]
fn trimming_follows_std() {
    for s in ["", "   ", " a b ", "\u{3000}x\u{2029}", "\tline\n", "x"] {
        assert_eq!(trim(s), s.trim());
        assert_eq!(trim(&trim(s)), trim(s));
    }
}

#[test]
fn ascii_case_comparison() {
    assert!(eq_ignore_ascii_case("All", "aLL"));
    assert!(!eq_ignore_ascii_case("all", "alls"));
    assert!(!eq_ignore_ascii_case("ä", "Ä"));
}

#[test]
fn joining() {
    let parts = vec!["a".to_string(), "b".to_string(), "c".to_string()];
    assert_eq!(join(&parts, ", "), "a, b, c");
    assert_eq!(join(&Vec::new(), ", "), "");
}

#[test]
fn timestamp_bounds_match_chrono() {
    assert_eq!(DateTime::<Utc>::MIN_UTC.timestamp(), MIN_UTC_SECONDS);
    assert_eq!(DateTime::<Utc>::MAX_UTC.timestamp(), MAX_UTC_SECONDS);
    assert!(UtcTimestamp::new(MIN_UTC_SECONDS, 0).is_some());
    assert!(UtcTimestamp::new(MAX_UTC_SECONDS, 999_999_999).is_some());
    assert!(UtcTimestamp::new(MIN_UTC_SECONDS - 1, 0).is_none());
    assert!(UtcTimestamp::new(0, 1_000_000_000).is_none());
}

#[test]
fn timestamp_bounds_are_chronos_first_and_last_seconds() {
    let first = DateTime::<Utc>::from_timestamp(MIN_UTC_SECONDS, 0).unwrap();
    assert_eq!(first.to_rfc3339(), "-262143-01-01T00:00:00+00:00");
    assert!(DateTime::<Utc>::from_timestamp(MIN_UTC_SECONDS - 1, 0).is_none());
    assert!(DateTime::<Utc>::from_timestamp(-8_334_601_315_200, 0).is_none());
    let last = DateTime::<Utc>::from_timestamp(MAX_UTC_SECONDS, 999_999_999).unwrap();
    assert_eq!(last.to_rfc3339(), "+262142-12-31T23:59:59.999999999+00:00");
    assert!(DateTime::<Utc>::from_timestamp(MAX_UTC_SECONDS + 1, 0).is_none());
}
