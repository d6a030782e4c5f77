//! Timestamps.
use loom::domain::time::Timestamp;

#[test]
fn timestamps_order_and_difference() {
    let a = Timestamp::from_millis(1_000);
    let b = Timestamp::from_millis(4_500);
    assert!(a < b);
    assert_eq!(b.saturating_millis_since(a), 3_500);
    assert_eq!(a.saturating_millis_since(b), -3_500);
    assert_eq!(b.as_millis(), 4_500);
}

#[test]
fn difference_saturates_instead_of_overflowing() {
    let lo = Timestamp::from_millis(i64::MIN);
    let hi = Timestamp::from_millis(i64::MAX);
    assert_eq!(hi.saturating_millis_since(lo), i64::MAX);
}

#[test]
fn a_timestamp_is_shown_in_milliseconds() {
    assert_eq!(Timestamp::from_millis(-5).to_string(), "-5ms");
    let lo = Timestamp::from_millis(i64::MIN);
    let hi = Timestamp::from_millis(i64::MAX);
    assert_eq!(lo.saturating_millis_since(hi), i64::MIN);
}
