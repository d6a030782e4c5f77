//! Identifiers and tokens.
use loom::domain::ids::AttemptNo;
use loom::domain::ids::FenceToken;
use loom::domain::ids::JobId;

#[test]
fn distinct_ids_display_their_inner_value() {
    let job = JobId::new("job-1");
    assert_eq!(job.as_str(), "job-1");
    assert_eq!(job.to_string(), "job-1");
    assert_eq!(JobId::from("job-1"), job);
    assert_eq!(JobId::from(String::from("job-1")), job);
}

#[test]
fn fence_tokens_are_totally_ordered() {
    assert!(FenceToken::from_persisted(7) < FenceToken::from_persisted(8));
    assert_eq!(FenceToken::from_persisted(8).value(), 8);
    assert_eq!(FenceToken::from_persisted(8).to_string(), "8");
}

#[test]
fn fence_token_round_trips_through_a_persisted_value() {
    // The storage layer rehydrates a fence via `from_persisted`; it must be
    // the exact inverse of `value`, and never mint a fresh counter.
    assert_eq!(FenceToken::from_persisted(42).value(), 42);
    assert_eq!(FenceToken::from_persisted(42), FenceToken::from_persisted(42));
}

#[test]
fn attempt_numbers_increment() {
    assert_eq!(AttemptNo::first(), AttemptNo::from_persisted(1));
    assert_eq!(AttemptNo::from_persisted(1).next(), AttemptNo::from_persisted(2));
    assert_eq!(AttemptNo::from_persisted(3).get(), 3);
}

#[test]
fn attempt_no_round_trips_through_a_persisted_value() {
    assert_eq!(AttemptNo::from_persisted(3).get(), 3);
    assert_eq!(AttemptNo::from_persisted(3), AttemptNo::from_persisted(3));
}

#[test]
#[should_panic(expected = "AttemptNo overflow")]
fn attempt_number_overflow_panics() {
    let _ = AttemptNo::from_persisted(u32::MAX).next();
}

#[test]
fn identifiers_order_as_their_text() {
    assert!(JobId::new("a") < JobId::new("b"));
    assert!(JobId::new(&String::from("x")) == JobId::new("x"));
    assert_ne!(JobId::new("x"), JobId::new("y"));
    assert_eq!(AttemptNo::from_persisted(9).to_string(), "9");
}
