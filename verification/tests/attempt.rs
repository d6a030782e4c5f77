//! Attempts.
use loom::domain::attempt::Attempt;
use loom::domain::attempt::AttemptPhase;
use loom::domain::ids::AttemptId;
use loom::domain::ids::AttemptNo;
use loom::domain::ids::CheckpointUri;
use loom::domain::ids::FenceToken;
use loom::domain::ids::JobId;
use loom::domain::ids::LeaseId;
use loom::domain::ids::NodeId;

#[test]
fn phase_classification_is_disjoint() {
    for phase in [
        AttemptPhase::Scheduled,
        AttemptPhase::Dispatched,
        AttemptPhase::Preparing,
        AttemptPhase::Running,
        AttemptPhase::Checkpointing,
        AttemptPhase::Succeeded,
        AttemptPhase::Failed,
        AttemptPhase::Lost,
        AttemptPhase::Preempted,
        AttemptPhase::Cancelled,
    ] {
        let classes = u8::from(phase.is_live())
            + u8::from(phase.is_terminal())
            + u8::from(phase.requeues());
        assert_eq!(
            classes, 1,
            "{phase:?} must be exactly one of live/terminal/requeue"
        );
    }
}

#[test]
fn lost_and_preempted_are_the_requeue_exits() {
    assert!(AttemptPhase::Lost.requeues());
    assert!(AttemptPhase::Preempted.requeues());
    assert!(!AttemptPhase::Running.requeues());
}

#[test]
fn scheduled_attempt_carries_committed_placement() {
    // A first, cold-start attempt: no checkpoint to resume from.
    let a = Attempt::scheduled(
        AttemptId::new("at-1"),
        JobId::new("job-1"),
        AttemptNo::first(),
        NodeId::new("node-1"),
        LeaseId::new("lease-1"),
        FenceToken::from_persisted(7),
        None,
    );
    assert_eq!(a.phase, AttemptPhase::Scheduled);
    // Scheduled means the lease is committed, so the placement is authoritative.
    assert_eq!(a.node, Some(NodeId::new("node-1")));
    assert_eq!(a.lease, Some(LeaseId::new("lease-1")));
    assert_eq!(a.fence, Some(FenceToken::from_persisted(7)));
    // Cold start: no checkpoint resumed/produced and nothing reported yet.
    assert!(a.start_checkpoint.is_none());
    assert!(a.end_checkpoint.is_none());
    assert!(a.last_event_at.is_none());
    assert_eq!(a.attempt_no, AttemptNo::from_persisted(1));
}

#[test]
fn requeued_successor_carries_its_resume_checkpoint() {
    // A successor attempt (attempt_no > 1) is scheduled with the checkpoint its
    // predecessor carried across the requeue, so its domain state reports a warm
    // resume — not a false cold start.
    let ckpt = CheckpointUri::new("sha256:resume-from-attempt-1");
    let a = Attempt::scheduled(
        AttemptId::new("at-2"),
        JobId::new("job-1"),
        AttemptNo::from_persisted(2),
        NodeId::new("node-2"),
        LeaseId::new("lease-2"),
        FenceToken::from_persisted(8),
        Some(ckpt.clone()),
    );
    assert_eq!(a.attempt_no, AttemptNo::from_persisted(2));
    // The durable checkpoint survives requeue into the successor's start state.
    assert_eq!(a.start_checkpoint, Some(ckpt));
    // Still nothing produced or reported on the fresh successor.
    assert!(a.end_checkpoint.is_none());
    assert!(a.last_event_at.is_none());
}
