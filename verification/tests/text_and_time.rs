use chrono::{DateTime, Utc};
use deadman_core::clock::{Timestamp, MAX_UNIX_SECS, MIN_UNIX_SECS};
use deadman_core::text::{is_blank, starts_with, str_eq};

#[test]
fn timestamp_bounds_match_chrono() {
    assert!(DateTime::<Utc>::from_timestamp(MIN_UNIX_SECS, 0).is_some());
    assert!(DateTime::<Utc>::from_timestamp(MIN_UNIX_SECS - 1, 999_999_999).is_none());
    assert!(DateTime::<Utc>::from_timestamp(MAX_UNIX_SECS, 999_999_999).is_some());
    assert!(DateTime::<Utc>::from_timestamp(MAX_UNIX_SECS + 1, 0).is_none());
    assert!(Timestamp::from_unix(MIN_UNIX_SECS, 0).is_some());
    assert!(Timestamp::from_unix(MIN_UNIX_SECS - 1, 0).is_none());
    assert!(Timestamp::from_unix(MAX_UNIX_SECS, 999_999_999).is_some());
    assert!(Timestamp::from_unix(MAX_UNIX_SECS + 1, 0).is_none());
    assert!(Timestamp::from_unix(0, 1_000_000_000).is_none());
}

#[test]
fn timestamp_keeps_its_parts() {
    let t = Timestamp::from_unix(1_431_648_000, 123).unwrap();
    assert_eq!(t.unix_secs(), 1_431_648_000);
    assert_eq!(t.subsec_nanos(), 123);
}

#[test]
fn whole_seconds_truncate_toward_zero() {
    let a = Timestamp::from_unix(100, 900_000_000).unwrap();
    let b = Timestamp::from_unix(98, 0).unwrap();
    assert_eq!(a.whole_seconds_since(&b), 2);
    assert_eq!(b.whole_seconds_since(&a), -2);
    let c = Timestamp::from_unix(98, 100_000_000).unwrap();
    assert_eq!(c.whole_seconds_since(&b), 0);
    assert_eq!(b.whole_seconds_since(&c), 0);
    let far = Timestamp::from_unix(MAX_UNIX_SECS, 0).unwrap();
    let early = Timestamp::from_unix(MIN_UNIX_SECS, 0).unwrap();
    assert_eq!(far.whole_seconds_since(&early), MAX_UNIX_SECS - MIN_UNIX_SECS);
}

#[test]
fn string_helpers() {
    assert!(str_eq("abc", "abc"));
    assert!(!str_eq("abc", "abd"));
    assert!(!str_eq("abc", "ab"));
    assert!(starts_with("Bearer x", "Bearer "));
    assert!(!starts_with("Bear", "Bearer "));
    assert!(is_blank(""));
    assert!(is_blank(" \t\n\u{3000}"));
    assert!(!is_blank("  a "));
}
