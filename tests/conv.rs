use rmod::duration::{duration_parts, to_duration};
use std::time::Duration;

#[test]
fn conv_test_to_duration() {
    assert_eq!(to_duration("10s"), Duration::from_secs(10));
    assert_eq!(to_duration("100ms"), Duration::from_millis(100));
    assert_eq!(to_duration("5m"), Duration::from_secs(5 * 60));
    assert_eq!(to_duration("2h"), Duration::from_secs(2 * 3600));
    assert_eq!(to_duration("1d"), Duration::from_secs(86400));
    assert_eq!(to_duration("123"), Duration::from_secs(123));
    assert_eq!(to_duration(""), Duration::from_secs(0));
    assert_eq!(to_duration("invalid"), Duration::from_secs(0));
    assert_eq!(to_duration("10x"), Duration::from_secs(0));
}

#[test]
fn time_test_to_duration() {
    assert_eq!(to_duration("10s"), Duration::from_secs(10));
    assert_eq!(to_duration("100ms"), Duration::from_millis(100));
    assert_eq!(to_duration("5m"), Duration::from_secs(5 * 60));
    assert_eq!(to_duration("2h"), Duration::from_secs(2 * 3600));
    assert_eq!(to_duration("1d"), Duration::from_secs(86400));
    assert_eq!(to_duration("123"), Duration::from_secs(123));
    assert_eq!(to_duration(""), Duration::from_secs(0));
    assert_eq!(to_duration("invalid"), Duration::from_secs(0));
    assert_eq!(to_duration("10x"), Duration::from_secs(0));
}

#[test]
fn duration_parts_edges() {
    assert_eq!(duration_parts("1500ms"), (1, 500_000_000));
    assert_eq!(duration_parts("+7s"), (7, 0));
    assert_eq!(duration_parts("+"), (0, 0));
    assert_eq!(duration_parts("-3s"), (0, 0));
    assert_eq!(duration_parts("18446744073709551615"), (u64::MAX, 0));
    assert_eq!(duration_parts("18446744073709551616"), (0, 0));
    assert_eq!(duration_parts("18446744073709551615d"), (u64::MAX, 0));
    assert_eq!(duration_parts(" 5s"), (0, 0));
}
