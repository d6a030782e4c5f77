//! Leases.
use loom::domain::ids::AttemptId;
use loom::domain::ids::FenceToken;
use loom::domain::ids::LeaseId;
use loom::domain::ids::NodeId;
use loom::domain::lease::Lease;
use loom::domain::lease::LeaseState;
use loom::domain::time::Timestamp;

fn lease() -> Lease {
    Lease {
        id: LeaseId::new("lease-1"),
        attempt: AttemptId::new("at-1"),
        node: NodeId::new("node-1"),
        fence: FenceToken::from_persisted(7),
        granted_at: Timestamp::from_millis(0),
        expires_at: Timestamp::from_millis(30_000),
        state: LeaseState::Active,
    }
}

#[test]
fn lease_expires_at_or_after_its_deadline() {
    let l = lease();
    assert!(!l.is_expired_at(Timestamp::from_millis(29_999)));
    assert!(l.is_expired_at(Timestamp::from_millis(30_000)));
    assert!(l.is_expired_at(Timestamp::from_millis(30_001)));
}

#[test]
fn renew_pushes_the_deadline_and_reactivates() {
    let mut l = lease();
    l.state = LeaseState::Expired;
    l.renew(Timestamp::from_millis(60_000));
    assert_eq!(l.state, LeaseState::Active);
    assert!(!l.is_expired_at(Timestamp::from_millis(59_999)));
}
