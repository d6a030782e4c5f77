//! Attempts: one placement of a job on a node. Each placement has its own
//! narrow phase; a job with three lost nodes has one job and four attempts,
//! chained by attempt number and carried checkpoints.
use crate::domain::ids::AttemptId;
use crate::domain::ids::AttemptNo;
use crate::domain::ids::CheckpointUri;
use crate::domain::ids::FenceToken;
use crate::domain::ids::JobId;
use crate::domain::ids::LeaseId;
use crate::domain::ids::NodeId;
use crate::domain::job::JobEvent;
use crate::domain::job::JobState;
use crate::domain::job::state_after;
use crate::domain::time::Timestamp;
use vstd::prelude::*;

verus! {

/// The phase of an attempt. `Lost` and `Preempted` are neither live nor
/// terminal: they are the exits that spawn a requeued successor.
#[derive(Debug, Clone, Copy, PartialEq, Eq, Hash, Structural)]
pub enum AttemptPhase {
    /// Lease committed, not yet pushed to the agent.
    Scheduled,
    /// Offer pushed to the agent.
    Dispatched,
    /// Agent pulling image or checkpoint.
    Preparing,
    /// Workload running.
    Running,
    /// Snapshotting (periodic or on preempt).
    Checkpointing,
    /// Reported exit 0.
    Succeeded,
    /// Reported non-zero or crash.
    Failed,
    /// Declared lost (silence past the timeout or lease lapse).
    Lost,
    /// Owner-ejected or preempted by a higher class.
    Preempted,
    /// Cancelled by the renter.
    Cancelled,
}

impl Default for AttemptPhase {
    fn default() -> (p: Self)
        ensures
            p == AttemptPhase::Scheduled,
    {
        AttemptPhase::Scheduled
    }
}

impl AttemptPhase {
    /// Whether the attempt is actively occupying its node.
    pub open spec fn live(self) -> bool {
        match self {
            AttemptPhase::Scheduled
            | AttemptPhase::Dispatched
            | AttemptPhase::Preparing
            | AttemptPhase::Running
            | AttemptPhase::Checkpointing => true,
            _ => false,
        }
    }

    /// Whether the attempt has reached a final phase for itself.
    pub open spec fn terminal(self) -> bool {
        match self {
            AttemptPhase::Succeeded | AttemptPhase::Failed | AttemptPhase::Cancelled => true,
            _ => false,
        }
    }

    /// Whether this exit requeues the job into a successor attempt.
    pub open spec fn respawns(self) -> bool {
        match self {
            AttemptPhase::Lost | AttemptPhase::Preempted => true,
            _ => false,
        }
    }

    /// Whether the attempt is actively occupying its node.
    #[must_use]
    pub fn is_live(self) -> (r: bool)
        ensures
            r == self.live(),
    {
        matches!(
            self,
            AttemptPhase::Scheduled | AttemptPhase::Dispatched | AttemptPhase::Preparing
            | AttemptPhase::Running | AttemptPhase::Checkpointing
        )
    }

    /// Whether the attempt has reached a final phase for itself.
    #[must_use]
    pub fn is_terminal(self) -> (r: bool)
        ensures
            r == self.terminal(),
    {
        matches!(
            self,
            AttemptPhase::Succeeded | AttemptPhase::Failed | AttemptPhase::Cancelled
        )
    }

    /// Whether this exit requeues the job into a successor attempt.
    #[must_use]
    pub fn requeues(self) -> (r: bool)
        ensures
            r == self.respawns(),
    {
        matches!(self, AttemptPhase::Lost | AttemptPhase::Preempted)
    }
}

/// Every phase is exactly one of live, terminal and a requeue exit.
pub proof fn phases_fall_in_exactly_one_class(p: AttemptPhase)
    ensures
        p.live() || p.terminal() || p.respawns(),
        !(p.live() && p.terminal()),
        !(p.live() && p.respawns()),
        !(p.terminal() && p.respawns()),
{
}

/// One placement of a job on a node, with the fence it was granted and the
/// checkpoints it resumed from and produced.
#[derive(Debug, Clone, PartialEq, Eq)]
pub struct Attempt {
    /// Stable attempt identifier.
    pub id: AttemptId,
    /// The job this attempt belongs to (the key of the fencing lineage).
    pub job: JobId,
    /// Monotonic per-job attempt number (1, 2, 3, ...).
    pub attempt_no: AttemptNo,
    /// The node placement, once scheduled.
    pub node: Option<NodeId>,
    /// The lease authorizing this attempt, once committed.
    pub lease: Option<LeaseId>,
    /// The fencing token stamped on this attempt's messages.
    pub fence: Option<FenceToken>,
    /// Current phase.
    pub phase: AttemptPhase,
    /// Checkpoint this attempt resumed from.
    pub start_checkpoint: Option<CheckpointUri>,
    /// Checkpoint this attempt produced.
    pub end_checkpoint: Option<CheckpointUri>,
    /// Last state or heartbeat instant, which drives the silence timeout.
    pub last_event_at: Option<Timestamp>,
}

impl Attempt {
    /// A scheduled attempt: the lease is already committed, so node, lease and
    /// fence are carried from the start. `start_checkpoint` is the checkpoint that
    /// it resumes from, `None` for a cold start. Nothing has been produced or
    /// reported yet.
    #[must_use]
    pub fn scheduled(
        id: AttemptId,
        job: JobId,
        attempt_no: AttemptNo,
        node: NodeId,
        lease: LeaseId,
        fence: FenceToken,
        start_checkpoint: Option<CheckpointUri>,
    ) -> (a: Self)
        ensures
            a == (Attempt {
                id,
                job,
                attempt_no,
                node: Some(node),
                lease: Some(lease),
                fence: Some(fence),
                phase: AttemptPhase::Scheduled,
                start_checkpoint,
                end_checkpoint: None,
                last_event_at: None,
            }),
    {
        Attempt {
            id,
            job,
            attempt_no,
            node: Some(node),
            lease: Some(lease),
            fence: Some(fence),
            phase: AttemptPhase::Scheduled,
            start_checkpoint,
            end_checkpoint: None,
            last_event_at: None,
        }
    }
}

/// The phase that an event of the job's lifecycle leaves the running attempt in, where
/// the event ends the attempt.
pub open spec fn ended_by(event: JobEvent) -> Option<AttemptPhase> {
    match event {
        JobEvent::Succeed => Some(AttemptPhase::Succeeded),
        JobEvent::Fail => Some(AttemptPhase::Failed),
        JobEvent::Lose => Some(AttemptPhase::Lost),
        JobEvent::Preempt => Some(AttemptPhase::Preempted),
        JobEvent::Cancel => Some(AttemptPhase::Cancelled),
        _ => None,
    }
}

/// The class of an attempt's phase agrees with the job's lifecycle. Whatever ends the
/// running attempt takes it out of the live phases; it is final for the attempt exactly
/// where the job refuses every further event, and it requeues exactly where the job
/// gets back into the queue by a requeue and a restart.
pub proof fn a_phase_is_classed_as_its_job_goes_on(event: JobEvent)
    ensures
        ended_by(event) is Some ==> JobState::Running.successor(event) is Some,
        ended_by(event) is Some ==> ({
            let phase = ended_by(event)->0;
            let state = JobState::Running.successor(event)->0;
            &&& !phase.live()
            &&& phase.terminal() <==> forall|e: JobEvent| (#[trigger] state.successor(e)) is None
            &&& phase.respawns() <==> state_after(
                state,
                seq![JobEvent::Requeue, JobEvent::Restart],
            ) == JobState::Queued
        }),
{
    if ended_by(event) is Some {
        let state = JobState::Running.successor(event)->0;
        let both = seq![JobEvent::Requeue, JobEvent::Restart];
        reveal_with_fuel(state_after, 3);
        assert(both.drop_last() =~= seq![JobEvent::Requeue]);
        assert(both.drop_last().drop_last() =~= Seq::<JobEvent>::empty());
        assert(state.successor(JobEvent::Cancel) is Some <==> !state.terminal());
    }
}

/// An attempt is live in exactly the phases that nothing ends it in, and a live phase is
/// neither final nor one that requeues.
pub proof fn a_phase_is_live_until_something_ends_the_attempt(p: AttemptPhase)
    ensures
        p.live() <==> forall|e: JobEvent| #[trigger] ended_by(e) != Some(p),
        p.live() ==> !p.terminal() && !p.respawns(),
{
    assert(ended_by(JobEvent::Succeed) == Some(AttemptPhase::Succeeded));
    assert(ended_by(JobEvent::Fail) == Some(AttemptPhase::Failed));
    assert(ended_by(JobEvent::Lose) == Some(AttemptPhase::Lost));
    assert(ended_by(JobEvent::Preempt) == Some(AttemptPhase::Preempted));
    assert(ended_by(JobEvent::Cancel) == Some(AttemptPhase::Cancelled));
}

/// A job's failed attempt is final because the failed job refuses every event, a
/// restart too; and so are its success and its cancellation.
pub proof fn a_final_attempt_leaves_its_job_no_way_on(event: JobEvent, later: JobEvent)
    requires
        event == JobEvent::Succeed || event == JobEvent::Fail || event == JobEvent::Cancel,
    ensures
        ended_by(event)->0.terminal(),
        !ended_by(event)->0.respawns(),
        JobState::Running.successor(event)->0.successor(later) is None,
        JobState::Running.successor(event)->0.terminal(),
{
}

/// A scheduled attempt is live, under the lease and the fence of its grant, on its node,
/// and resumes from what it was given; it has produced and reported nothing.
pub proof fn a_scheduled_attempt_carries_its_grant(
    id: AttemptId,
    job: JobId,
    attempt_no: AttemptNo,
    node: NodeId,
    lease: LeaseId,
    fence: FenceToken,
    start_checkpoint: Option<CheckpointUri>,
    a: Attempt,
    live: bool,
)
    requires
        call_ensures(
            Attempt::scheduled,
            (id, job, attempt_no, node, lease, fence, start_checkpoint),
            a,
        ),
        call_ensures(AttemptPhase::is_live, (a.phase,), live),
    ensures
        live,
        a.id@ == id@,
        a.job@ == job@,
        a.attempt_no@ == attempt_no@,
        a.node is Some && a.node->0@ == node@,
        a.lease is Some && a.lease->0@ == lease@,
        a.fence is Some && a.fence->0@ == fence@,
        a.start_checkpoint == start_checkpoint,
        a.end_checkpoint is None,
        a.last_event_at is None,
{
}

/// The class that each question tells is the one of the lifecycle: of the phase that an
/// event leaves the running attempt in, it is final exactly where the job refuses every
/// event then, and requeues exactly where the attempt was lost or preempted.
pub proof fn each_question_tells_the_class_of_the_phase(
    event: JobEvent,
    live: bool,
    terminal: bool,
    requeues: bool,
)
    requires
        ended_by(event) is Some,
        call_ensures(AttemptPhase::is_live, (ended_by(event)->0,), live),
        call_ensures(AttemptPhase::is_terminal, (ended_by(event)->0,), terminal),
        call_ensures(AttemptPhase::requeues, (ended_by(event)->0,), requeues),
    ensures
        !live,
        terminal != requeues,
        requeues <==> event == JobEvent::Lose || event == JobEvent::Preempt,
        terminal <==> JobState::Running.successor(event)->0.terminal(),
{
}

} // verus!
