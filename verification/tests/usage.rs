//! Usage records.
use loom::domain::ids::AttemptId;
use loom::domain::ids::FenceToken;
use loom::domain::ids::HostId;
use loom::domain::ids::NodeId;
use loom::domain::time::Timestamp;
use loom::domain::usage::UsageRecord;
use loom::domain::usage::UsageValidation;

fn record() -> UsageRecord {
    UsageRecord {
        attempt: AttemptId::new("at-1"),
        node: NodeId::new("node-1"),
        host: HostId::new("host-1"),
        fence: FenceToken::from_persisted(1),
        seq: 0,
        window_start: Timestamp::from_millis(0),
        window_end: Timestamp::from_millis(10_000),
        billable_secs: 10,
        gpu_util_pct: Some(85),
        validation: UsageValidation::Pending,
    }
}

#[test]
fn a_well_formed_record_is_plausible() {
    assert!(record().is_plausible());
    assert_eq!(record().window_secs(), 10);
}

#[test]
fn billing_more_than_wall_clock_is_implausible() {
    let mut r = record();
    r.billable_secs = 11;
    assert!(!r.is_plausible());
}

#[test]
fn reversed_window_is_implausible() {
    let mut r = record();
    r.window_start = Timestamp::from_millis(20_000);
    assert!(!r.is_plausible());
}

#[test]
fn utilization_over_one_hundred_is_implausible() {
    let mut r = record();
    r.gpu_util_pct = Some(101);
    assert!(!r.is_plausible());
}

#[test]
fn a_window_is_counted_in_whole_seconds() {
    let mut r = record();
    r.window_end = Timestamp::from_millis(10_999);
    assert_eq!(r.window_secs(), 10);
    r.window_start = Timestamp::from_millis(i64::MIN);
    r.window_end = Timestamp::from_millis(i64::MAX);
    assert_eq!(r.window_secs(), i64::MAX / 1000);
    r = record();
    r.gpu_util_pct = None;
    r.billable_secs = 0;
    assert!(r.is_plausible());
}
