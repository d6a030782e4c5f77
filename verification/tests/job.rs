//! Job states and events.
use loom::domain::capability::Backend;
use loom::domain::job::JobEvent;
use loom::domain::job::JobState;
use loom::domain::job::ResourceClaim;

/// The legal transitions other than cancel, written out by hand so the test
/// is an independent check on `JobState::apply` rather than a mirror of it.
const LEGAL: &[(JobState, JobEvent, JobState)] = &[
    (JobState::Submitted, JobEvent::Validate, JobState::Queued),
    (JobState::Queued, JobEvent::Schedule, JobState::Scheduled),
    (
        JobState::Scheduled,
        JobEvent::Dispatch,
        JobState::Dispatched,
    ),
    (
        JobState::Dispatched,
        JobEvent::PrepareStarted,
        JobState::Preparing,
    ),
    (JobState::Preparing, JobEvent::RunStarted, JobState::Running),
    (
        JobState::Running,
        JobEvent::CheckpointStarted,
        JobState::Checkpointing,
    ),
    (
        JobState::Checkpointing,
        JobEvent::CheckpointCompleted,
        JobState::Running,
    ),
    (JobState::Running, JobEvent::Succeed, JobState::Succeeded),
    (JobState::Running, JobEvent::Fail, JobState::Failed),
    (JobState::Running, JobEvent::Lose, JobState::Requeued),
    (JobState::Running, JobEvent::Preempt, JobState::Preempted),
    (
        JobState::Checkpointing,
        JobEvent::Preempt,
        JobState::Requeued,
    ),
    (JobState::Preempted, JobEvent::Requeue, JobState::Requeued),
    (JobState::Requeued, JobEvent::Restart, JobState::Queued),
];

/// The independently-computed expected result of a transition.
fn expected(state: JobState, event: JobEvent) -> Option<JobState> {
    if matches!(event, JobEvent::Cancel) {
        return if state.is_terminal() {
            None
        } else {
            Some(JobState::Cancelled)
        };
    }
    LEGAL
        .iter()
        .find(|(from, ev, _)| *from == state && *ev == event)
        .map(|(_, _, to)| *to)
}

#[test]
fn every_state_event_pair_matches_the_hand_written_table() {
    let mut legal_count = 0_usize;
    for state in JobState::all() {
        for event in JobEvent::all() {
            let want = expected(state, event);
            let got = state.apply(event).ok();
            assert_eq!(got, want, "transition ({state:?}, {event:?}) disagreed");
            if want.is_some() {
                legal_count += 1;
            }
        }
    }
    // 14 non-cancel edges + one cancel edge from each of the 9 non-terminal states.
    assert_eq!(legal_count, LEGAL.len() + 9);
}

#[test]
fn terminal_states_reject_every_event() {
    for state in [JobState::Succeeded, JobState::Failed, JobState::Cancelled] {
        assert!(state.is_terminal());
        for event in JobEvent::all() {
            assert!(state.apply(event).is_err(), "{state:?} accepted {event:?}");
        }
    }
}

#[test]
fn cancel_is_accepted_from_every_non_terminal_state() {
    for state in JobState::all() {
        let result = state.apply(JobEvent::Cancel);
        if state.is_terminal() {
            assert!(result.is_err());
        } else {
            assert_eq!(result, Ok(JobState::Cancelled));
        }
    }
}

#[test]
fn illegal_transition_reports_its_context() {
    let err = JobState::Queued.apply(JobEvent::Succeed);
    let Err(err) = err else {
        panic!("expected rejection")
    };
    assert_eq!(err.from, JobState::Queued);
    assert_eq!(err.event, JobEvent::Succeed);
}

#[test]
fn a_requeue_lineage_walks_back_to_queued() {
    // running → lost → requeued → restart → queued (a checkpoint-resume cycle).
    let mut state = JobState::Running;
    state = state.apply(JobEvent::Lose).expect("running loses");
    assert_eq!(state, JobState::Requeued);
    state = state.apply(JobEvent::Restart).expect("requeued restarts");
    assert_eq!(state, JobState::Queued);
}

#[test]
fn happy_path_runs_submitted_to_succeeded() {
    let steps = [
        JobEvent::Validate,
        JobEvent::Schedule,
        JobEvent::Dispatch,
        JobEvent::PrepareStarted,
        JobEvent::RunStarted,
        JobEvent::Succeed,
    ];
    let mut state = JobState::Submitted;
    for event in steps {
        state = state.apply(event).expect("happy-path step is legal");
    }
    assert_eq!(state, JobState::Succeeded);
    assert!(state.is_terminal());
}

#[test]
fn a_rejected_transition_says_why() {
    let err = JobState::Queued.apply(JobEvent::Succeed).unwrap_err();
    assert_eq!(
        err.to_string(),
        "illegal job transition: Succeed is not permitted from Queued"
    );
    assert_eq!(JobState::all().len(), 12);
    assert_eq!(JobEvent::all().len(), 14);
}

#[test]
fn a_default_claim_constrains_nothing() {
    let claim = ResourceClaim::default();
    assert_eq!(claim.max_price_per_sec_micro_usd, i64::MAX);
    for backend in Backend::all() {
        assert!(claim.supported_backends.contains(backend));
    }
}
