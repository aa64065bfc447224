use reactor::timeout::{quantize, timeout_millis, FOREVER, MAX_MILLIS};
use std::time::Duration;

#[test]
fn no_timeout_blocks_forever() {
    assert_eq!(timeout_millis(None), -1);
    assert_eq!(FOREVER, -1);
}

#[test]
fn zero_timeout_polls() {
    assert_eq!(timeout_millis(Some(Duration::from_millis(0))), 0);
    assert_eq!(timeout_millis(Some(Duration::new(0, 0))), 0);
    assert_eq!(quantize(0), 0);
}

#[test]
fn short_timeout_rounds_up_to_one() {
    assert_eq!(timeout_millis(Some(Duration::from_nanos(1))), 1);
    assert_eq!(timeout_millis(Some(Duration::from_micros(500))), 1);
    assert_eq!(timeout_millis(Some(Duration::from_nanos(999_999))), 1);
    assert_eq!(quantize(1), 1);
    assert_eq!(quantize(999_999), 1);
}

#[test]
fn longer_timeout_rounds_down() {
    assert_eq!(timeout_millis(Some(Duration::from_millis(1))), 1);
    assert_eq!(timeout_millis(Some(Duration::from_micros(1_999))), 1);
    assert_eq!(timeout_millis(Some(Duration::from_micros(2_000))), 2);
    assert_eq!(timeout_millis(Some(Duration::from_secs(5))), 5000);
    assert_eq!(timeout_millis(Some(Duration::new(1, 500_999_999))), 1500);
    assert_eq!(quantize(1_000_000), 1);
    assert_eq!(quantize(2_999_999), 2);
}

#[test]
fn huge_timeout_clamps_to_maximum() {
    assert_eq!(MAX_MILLIS, 2147483647);
    assert_eq!(timeout_millis(Some(Duration::from_millis(2147483647))), 2147483647);
    assert_eq!(timeout_millis(Some(Duration::from_millis(2147483648))), 2147483647);
    assert_eq!(timeout_millis(Some(Duration::from_secs(u64::MAX))), 2147483647);
    assert_eq!(timeout_millis(Some(Duration::new(u64::MAX, 999_999_999))), 2147483647);
    assert_eq!(quantize(u128::MAX), 2147483647);
    assert_eq!(quantize(2147483646u128 * 1_000_000 + 999_999), 2147483646);
}
