//! Jobs (renter intent) and the job-lifecycle state machine.
//!
//! The lifecycle is a total function, [`JobState::apply`]: every legal pair of
//! state and event maps to a successor, every other is refused with
//! [`IllegalTransition`]. Renter cancellation is accepted from any non-terminal
//! state.
use crate::domain::capability::Backend;
use crate::domain::capability::BackendSet;
use crate::domain::capability::IsolationTier;
use crate::domain::capability::Version;
use crate::domain::ids::AccountId;
use crate::domain::ids::CheckpointUri;
use crate::domain::ids::JobId;
use crate::domain::time::Timestamp;
use vstd::prelude::*;

verus! {

/// Whether a job is a batch run or a long-lived serving deployment.
#[derive(Debug, Clone, Copy, PartialEq, Eq, Hash, Structural)]
pub enum WorkloadClass {
    /// Queued and bin-packed.
    Batch,
    /// A long-lived replica reconciled to a desired count.
    Serving,
}

impl Default for WorkloadClass {
    fn default() -> (c: Self)
        ensures
            c == WorkloadClass::Batch,
    {
        WorkloadClass::Batch
    }
}

/// How a job selects its compute backend.
#[derive(Debug, Clone, Copy, PartialEq, Eq, Hash, Structural)]
pub enum BackendSelector {
    /// The best backend that both the recipe and the node support.
    Auto,
    /// Exactly one backend; nodes lacking it are filtered out.
    Only(Backend),
}

impl Default for BackendSelector {
    fn default() -> (b: Self)
        ensures
            b == BackendSelector::Auto,
    {
        BackendSelector::Auto
    }
}

/// The hard constraints that a node must satisfy to run a job. Soft preferences
/// live in the scheduler's scoring, not here.
#[derive(Debug, Clone, PartialEq, Eq)]
pub struct ResourceClaim {
    /// Minimum GPU memory in MB; a unified pool counts whole.
    pub min_memory_mb: u64,
    /// Exact GPU model requirement, if any.
    pub gpu_model: Option<String>,
    /// Minimum driver version, if any.
    pub min_driver: Option<Version>,
    /// Minimum CUDA line, if any (only meaningful for CUDA placements).
    pub min_cuda: Option<Version>,
    /// Minimum acceptable isolation tier.
    pub min_isolation: IsolationTier,
    /// Reliability floor in thousandths, `0..=1000`.
    pub min_reliability_milli: u16,
    /// Region preference; when set, only matching nodes qualify.
    pub region_pref: Option<String>,
    /// Price ceiling, integer micro-USD per second.
    pub max_price_per_sec_micro_usd: i64,
    /// How the backend is chosen.
    pub backend: BackendSelector,
    /// The recipe's supported backends, intersected with node capability under
    /// [`BackendSelector::Auto`].
    pub supported_backends: BackendSet,
}

impl ResourceClaim {
    /// The claim that constrains nothing: no floor, no ceiling, every backend.
    pub open spec fn is_unconstrained(self) -> bool {
        &&& self.min_memory_mb == 0
        &&& self.gpu_model is None
        &&& self.min_driver is None
        &&& self.min_cuda is None
        &&& self.min_isolation == IsolationTier::B
        &&& self.min_reliability_milli == 0
        &&& self.region_pref is None
        &&& self.max_price_per_sec_micro_usd == i64::MAX
        &&& self.backend == BackendSelector::Auto
        &&& forall|b: Backend| self.supported_backends@.contains(b)
    }
}

impl Default for ResourceClaim {
    /// The claim that constrains nothing. It is written out because zero values
    /// would not do: a zero price ceiling and no supported backend exclude nodes.
    fn default() -> (c: Self)
        ensures
            c.is_unconstrained(),
    {
        let all = Backend::all();
        let supported_backends = BackendSet::from_backends(&all);
        proof {
            assert forall|b: Backend| supported_backends@.contains(b) by {
                crate::domain::capability::the_order_is_the_ranks(b);
                assert(all@[b.rank() as int] == b);
            }
        }
        ResourceClaim {
            min_memory_mb: 0,
            gpu_model: None,
            min_driver: None,
            min_cuda: None,
            min_isolation: IsolationTier::B,
            min_reliability_milli: 0,
            region_pref: None,
            max_price_per_sec_micro_usd: i64::MAX,
            backend: BackendSelector::Auto,
            supported_backends,
        }
    }
}

/// A submitted job specification (renter intent).
#[derive(Debug, Clone, PartialEq, Eq)]
pub struct JobSpec {
    /// Content-addressed image or runtime reference.
    pub image_ref: String,
    /// The hard resource constraints.
    pub claim: ResourceClaim,
    /// Batch or serving.
    pub workload_class: WorkloadClass,
    /// Scheduling priority (higher runs first within a class).
    pub priority: i32,
    /// The checkpoint that the next attempt resumes from, if any.
    pub checkpoint_uri: Option<CheckpointUri>,
}

/// A job row: identity, spec, lifecycle state and timestamps.
#[derive(Debug, Clone, PartialEq, Eq)]
pub struct Job {
    /// Stable job identifier (the key of the fencing lineage).
    pub id: JobId,
    /// Owning account.
    pub account: AccountId,
    /// The submitted specification.
    pub spec: JobSpec,
    /// Current lifecycle state.
    pub state: JobState,
    /// When the job was submitted.
    pub submitted_at: Timestamp,
    /// When the job reached a terminal state, if it has.
    pub terminal_at: Option<Timestamp>,
}

/// The job lifecycle states.
#[derive(Debug, Clone, Copy, PartialEq, Eq, Hash, PartialOrd, Ord, Structural)]
pub enum JobState {
    /// Accepted, not yet validated.
    Submitted,
    /// Validated and funds held; schedulable.
    Queued,
    /// The scheduler committed a lease.
    Scheduled,
    /// The gateway pushed the offer to an agent.
    Dispatched,
    /// The agent is pulling image or checkpoint.
    Preparing,
    /// The workload is running.
    Running,
    /// The workload is snapshotting.
    Checkpointing,
    /// A lost or preempted attempt is being requeued into a successor.
    Requeued,
    /// Preempted (owner-eject or higher class), awaiting requeue.
    Preempted,
    /// Finished successfully (terminal).
    Succeeded,
    /// Finished with failure (terminal).
    Failed,
    /// Cancelled by the renter (terminal).
    Cancelled,
}

impl JobState {
    /// The name of the variant.
    pub open spec fn label(self) -> Seq<char> {
        match self {
            JobState::Submitted => "Submitted"@,
            JobState::Queued => "Queued"@,
            JobState::Scheduled => "Scheduled"@,
            JobState::Dispatched => "Dispatched"@,
            JobState::Preparing => "Preparing"@,
            JobState::Running => "Running"@,
            JobState::Checkpointing => "Checkpointing"@,
            JobState::Requeued => "Requeued"@,
            JobState::Preempted => "Preempted"@,
            JobState::Succeeded => "Succeeded"@,
            JobState::Failed => "Failed"@,
            JobState::Cancelled => "Cancelled"@,
        }
    }

    /// The name of the variant.
    #[must_use]
    pub fn name(self) -> (s: &'static str)
        ensures
            s@ == self.label(),
    {
        match self {
            JobState::Submitted => "Submitted",
            JobState::Queued => "Queued",
            JobState::Scheduled => "Scheduled",
            JobState::Dispatched => "Dispatched",
            JobState::Preparing => "Preparing",
            JobState::Running => "Running",
            JobState::Checkpointing => "Checkpointing",
            JobState::Requeued => "Requeued",
            JobState::Preempted => "Preempted",
            JobState::Succeeded => "Succeeded",
            JobState::Failed => "Failed",
            JobState::Cancelled => "Cancelled",
        }
    }

    /// Every state.
    #[must_use]
    pub fn all() -> (r: [JobState; 12])
        ensures
            forall|s: JobState| r@.contains(s),
            r@.no_duplicates(),
    {
        let r = [
            JobState::Submitted,
            JobState::Queued,
            JobState::Scheduled,
            JobState::Dispatched,
            JobState::Preparing,
            JobState::Running,
            JobState::Checkpointing,
            JobState::Requeued,
            JobState::Preempted,
            JobState::Succeeded,
            JobState::Failed,
            JobState::Cancelled,
        ];
        proof {
            assert forall|s: JobState| r@.contains(s) by {
                assert(r@[0] == JobState::Submitted);
                assert(r@[1] == JobState::Queued);
                assert(r@[2] == JobState::Scheduled);
                assert(r@[3] == JobState::Dispatched);
                assert(r@[4] == JobState::Preparing);
                assert(r@[5] == JobState::Running);
                assert(r@[6] == JobState::Checkpointing);
                assert(r@[7] == JobState::Requeued);
                assert(r@[8] == JobState::Preempted);
                assert(r@[9] == JobState::Succeeded);
                assert(r@[10] == JobState::Failed);
                assert(r@[11] == JobState::Cancelled);
            }
        }
        r
    }

    /// Whether no further transition is possible.
    pub open spec fn terminal(self) -> bool {
        self == JobState::Succeeded || self == JobState::Failed || self == JobState::Cancelled
    }

    /// The successor of the state under an event, or `None` where the event is
    /// not permitted.
    pub open spec fn successor(self, event: JobEvent) -> Option<JobState> {
        match (self, event) {
            (s, JobEvent::Cancel) => if s.terminal() {
                None
            } else {
                Some(JobState::Cancelled)
            },
            (JobState::Submitted, JobEvent::Validate) => Some(JobState::Queued),
            (JobState::Queued, JobEvent::Schedule) => Some(JobState::Scheduled),
            (JobState::Scheduled, JobEvent::Dispatch) => Some(JobState::Dispatched),
            (JobState::Dispatched, JobEvent::PrepareStarted) => Some(JobState::Preparing),
            (JobState::Preparing, JobEvent::RunStarted) => Some(JobState::Running),
            (JobState::Running, JobEvent::CheckpointStarted) => Some(JobState::Checkpointing),
            (JobState::Checkpointing, JobEvent::CheckpointCompleted) => Some(JobState::Running),
            (JobState::Running, JobEvent::Succeed) => Some(JobState::Succeeded),
            (JobState::Running, JobEvent::Fail) => Some(JobState::Failed),
            (JobState::Running, JobEvent::Lose) => Some(JobState::Requeued),
            (JobState::Running, JobEvent::Preempt) => Some(JobState::Preempted),
            (JobState::Checkpointing, JobEvent::Preempt) => Some(JobState::Requeued),
            (JobState::Preempted, JobEvent::Requeue) => Some(JobState::Requeued),
            (JobState::Requeued, JobEvent::Restart) => Some(JobState::Queued),
            _ => None,
        }
    }

    /// Whether no further transition is possible.
    #[must_use]
    pub fn is_terminal(self) -> (r: bool)
        ensures
            r == self.terminal(),
    {
        matches!(self, JobState::Succeeded | JobState::Failed | JobState::Cancelled)
    }

    /// Applies `event`, returning the successor state.
    ///
    /// # Errors
    /// [`IllegalTransition`] when `event` is not permitted from this state.
    pub fn apply(self, event: JobEvent) -> (r: Result<Self, IllegalTransition>)
        ensures
            r == (match self.successor(event) {
                Some(next) => Ok::<JobState, IllegalTransition>(next),
                None => Err(IllegalTransition { from: self, event }),
            }),
    {
        if matches!(event, JobEvent::Cancel) {
            return if self.is_terminal() {
                Err(IllegalTransition { from: self, event })
            } else {
                Ok(JobState::Cancelled)
            };
        }
        let next = match (self, event) {
            (JobState::Submitted, JobEvent::Validate) => JobState::Queued,
            (JobState::Queued, JobEvent::Schedule) => JobState::Scheduled,
            (JobState::Scheduled, JobEvent::Dispatch) => JobState::Dispatched,
            (JobState::Dispatched, JobEvent::PrepareStarted) => JobState::Preparing,
            (JobState::Preparing, JobEvent::RunStarted) => JobState::Running,
            (JobState::Running, JobEvent::CheckpointStarted) => JobState::Checkpointing,
            (JobState::Checkpointing, JobEvent::CheckpointCompleted) => JobState::Running,
            (JobState::Running, JobEvent::Succeed) => JobState::Succeeded,
            (JobState::Running, JobEvent::Fail) => JobState::Failed,
            (JobState::Running, JobEvent::Lose) => JobState::Requeued,
            (JobState::Running, JobEvent::Preempt) => JobState::Preempted,
            (JobState::Checkpointing, JobEvent::Preempt) => JobState::Requeued,
            (JobState::Preempted, JobEvent::Requeue) => JobState::Requeued,
            (JobState::Requeued, JobEvent::Restart) => JobState::Queued,
            _ => {
                return Err(IllegalTransition { from: self, event });
            },
        };
        Ok(next)
    }
}

/// The events that drive the job lifecycle, each owned by one actor (API,
/// scheduler, gateway or agent).
#[derive(Debug, Clone, Copy, PartialEq, Eq, Hash, Structural)]
pub enum JobEvent {
    /// API: validated the spec and held funds.
    Validate,
    /// Scheduler: committed a lease.
    Schedule,
    /// Gateway: pushed the offer to the agent.
    Dispatch,
    /// Agent: began pulling image or checkpoint.
    PrepareStarted,
    /// Agent: workload started.
    RunStarted,
    /// Agent: began a snapshot.
    CheckpointStarted,
    /// Agent: snapshot completed, resuming.
    CheckpointCompleted,
    /// Agent: reported exit 0.
    Succeed,
    /// Agent: reported non-zero or crash.
    Fail,
    /// Scheduler: attempt declared lost (silence or lease lapse).
    Lose,
    /// Scheduler: preempted (owner-eject or higher class).
    Preempt,
    /// Scheduler: a preempted job is requeued.
    Requeue,
    /// Scheduler: a requeued job re-enters the queue as a new attempt.
    Restart,
    /// API: renter cancellation (any non-terminal state).
    Cancel,
}

impl JobEvent {
    /// The name of the variant.
    pub open spec fn label(self) -> Seq<char> {
        match self {
            JobEvent::Validate => "Validate"@,
            JobEvent::Schedule => "Schedule"@,
            JobEvent::Dispatch => "Dispatch"@,
            JobEvent::PrepareStarted => "PrepareStarted"@,
            JobEvent::RunStarted => "RunStarted"@,
            JobEvent::CheckpointStarted => "CheckpointStarted"@,
            JobEvent::CheckpointCompleted => "CheckpointCompleted"@,
            JobEvent::Succeed => "Succeed"@,
            JobEvent::Fail => "Fail"@,
            JobEvent::Lose => "Lose"@,
            JobEvent::Preempt => "Preempt"@,
            JobEvent::Requeue => "Requeue"@,
            JobEvent::Restart => "Restart"@,
            JobEvent::Cancel => "Cancel"@,
        }
    }

    /// The name of the variant.
    #[must_use]
    pub fn name(self) -> (s: &'static str)
        ensures
            s@ == self.label(),
    {
        match self {
            JobEvent::Validate => "Validate",
            JobEvent::Schedule => "Schedule",
            JobEvent::Dispatch => "Dispatch",
            JobEvent::PrepareStarted => "PrepareStarted",
            JobEvent::RunStarted => "RunStarted",
            JobEvent::CheckpointStarted => "CheckpointStarted",
            JobEvent::CheckpointCompleted => "CheckpointCompleted",
            JobEvent::Succeed => "Succeed",
            JobEvent::Fail => "Fail",
            JobEvent::Lose => "Lose",
            JobEvent::Preempt => "Preempt",
            JobEvent::Requeue => "Requeue",
            JobEvent::Restart => "Restart",
            JobEvent::Cancel => "Cancel",
        }
    }

    /// Every event.
    #[must_use]
    pub fn all() -> (r: [JobEvent; 14])
        ensures
            forall|e: JobEvent| r@.contains(e),
            r@.no_duplicates(),
    {
        let r = [
            JobEvent::Validate,
            JobEvent::Schedule,
            JobEvent::Dispatch,
            JobEvent::PrepareStarted,
            JobEvent::RunStarted,
            JobEvent::CheckpointStarted,
            JobEvent::CheckpointCompleted,
            JobEvent::Succeed,
            JobEvent::Fail,
            JobEvent::Lose,
            JobEvent::Preempt,
            JobEvent::Requeue,
            JobEvent::Restart,
            JobEvent::Cancel,
        ];
        proof {
            assert forall|e: JobEvent| r@.contains(e) by {
                assert(r@[0] == JobEvent::Validate);
                assert(r@[1] == JobEvent::Schedule);
                assert(r@[2] == JobEvent::Dispatch);
                assert(r@[3] == JobEvent::PrepareStarted);
                assert(r@[4] == JobEvent::RunStarted);
                assert(r@[5] == JobEvent::CheckpointStarted);
                assert(r@[6] == JobEvent::CheckpointCompleted);
                assert(r@[7] == JobEvent::Succeed);
                assert(r@[8] == JobEvent::Fail);
                assert(r@[9] == JobEvent::Lose);
                assert(r@[10] == JobEvent::Preempt);
                assert(r@[11] == JobEvent::Requeue);
                assert(r@[12] == JobEvent::Restart);
                assert(r@[13] == JobEvent::Cancel);
            }
        }
        r
    }
}

/// A rejected job-lifecycle transition.
#[derive(Debug, Clone, Copy, PartialEq, Eq, Structural)]
pub struct IllegalTransition {
    /// The state the transition was attempted from.
    pub from: JobState,
    /// The event that was rejected.
    pub event: JobEvent,
}

impl IllegalTransition {
    /// The rejection as shown to a reader.
    #[must_use]
    pub fn to_string(&self) -> (s: String)
        ensures
            s@ == "illegal job transition: "@ + self.event.label() + " is not permitted from "@
                + self.from.label(),
    {
        let mut s = "illegal job transition: ".to_owned();
        s.append(self.event.name());
        s.append(" is not permitted from ");
        s.append(self.from.name());
        s
    }
}

/// The state after a run of events, where a refused event leaves it as it is.
pub open spec fn state_after(state: JobState, events: Seq<JobEvent>) -> JobState
    decreases events.len(),
{
    if events.len() == 0 {
        state
    } else {
        let before = state_after(state, events.drop_last());
        match before.successor(events.last()) {
            Some(next) => next,
            None => before,
        }
    }
}

/// A terminal state refuses every event, and it is the only kind that does.
pub proof fn terminal_states_refuse_every_event(state: JobState)
    ensures
        state.terminal() <==> forall|e: JobEvent| (#[trigger] state.successor(e)) is None,
{
    if !state.terminal() {
        assert(state.successor(JobEvent::Cancel) is Some);
    }
}

/// Once terminal, a job stays in that state whatever events arrive.
pub proof fn a_finished_job_stays_finished(state: JobState, events: Seq<JobEvent>)
    requires
        state.terminal(),
    ensures
        state_after(state, events) == state,
    decreases events.len(),
{
    if events.len() > 0 {
        a_finished_job_stays_finished(state, events.drop_last());
    }
}

/// Cancellation is accepted exactly from the non-terminal states, and always
/// ends in `Cancelled`.
pub proof fn cancel_is_accepted_exactly_before_the_end(state: JobState)
    ensures
        state.successor(JobEvent::Cancel) == (if state.terminal() {
            None::<JobState>
        } else {
            Some(JobState::Cancelled)
        }),
{
}

/// No job succeeds or fails but from `Running`, and none is cancelled but by a
/// cancellation.
pub proof fn outcomes_come_from_running(state: JobState, event: JobEvent)
    ensures
        state.successor(event) == Some(JobState::Succeeded) ==> state == JobState::Running && event
            == JobEvent::Succeed,
        state.successor(event) == Some(JobState::Failed) ==> state == JobState::Running && event
            == JobEvent::Fail,
        state.successor(event) == Some(JobState::Cancelled) ==> event == JobEvent::Cancel,
{
}

/// The states that a job passes on its way, in order.
pub open spec fn stages() -> Seq<JobState> {
    seq![
        JobState::Submitted,
        JobState::Queued,
        JobState::Scheduled,
        JobState::Dispatched,
        JobState::Preparing,
        JobState::Running,
        JobState::Checkpointing,
    ]
}

/// The events that take it from each stage to the next, in order.
pub open spec fn advances() -> Seq<JobEvent> {
    seq![
        JobEvent::Validate,
        JobEvent::Schedule,
        JobEvent::Dispatch,
        JobEvent::PrepareStarted,
        JobEvent::RunStarted,
        JobEvent::CheckpointStarted,
    ]
}

/// The lifecycle is walked in order: each advance takes a job from its stage to the
/// next one, and no other state accepts it, so no stage is skipped or repeated.
pub proof fn the_lifecycle_is_walked_in_order(i: int, s: JobState)
    requires
        0 <= i < advances().len(),
    ensures
        stages()[i].successor(advances()[i]) == Some(stages()[i + 1]),
        s.successor(advances()[i]) is Some ==> s == stages()[i],
{
}

/// A snapshot resumes where it began: completing one undoes exactly the step that
/// started it.
pub proof fn a_snapshot_resumes_where_it_began(s: JobState, t: JobState)
    ensures
        s.successor(JobEvent::CheckpointStarted) == Some(t) <==> t.successor(
            JobEvent::CheckpointCompleted,
        ) == Some(s),
{
}

/// A job that is lost or preempted is queued again, by a requeue where it awaits one and
/// a restart: it is never queued at once, and never finished.
pub proof fn a_lost_or_preempted_job_is_queued_again(s: JobState, event: JobEvent)
    requires
        event == JobEvent::Lose || event == JobEvent::Preempt,
        s.successor(event) is Some,
    ensures
        ({
            let t = s.successor(event)->0;
            &&& !t.terminal()
            &&& t.successor(JobEvent::Schedule) is None
            &&& state_after(t, seq![JobEvent::Requeue, JobEvent::Restart]).successor(
                JobEvent::Schedule,
            ) is Some
        }),
{
    let t = s.successor(event)->0;
    let both = seq![JobEvent::Requeue, JobEvent::Restart];
    reveal_with_fuel(state_after, 3);
    assert(both.drop_last() =~= seq![JobEvent::Requeue]);
    assert(both.drop_last().drop_last() =~= Seq::<JobEvent>::empty());
}

/// Only work that is under way can be lost or preempted, and running work can be either.
/// Running work that is preempted awaits a requeue first; work preempted at its snapshot,
/// and lost work, restart without one.
pub proof fn only_work_under_way_is_taken_away(s: JobState)
    ensures
        s.successor(JobEvent::Lose) is Some <==> s.successor(JobEvent::Succeed) is Some,
        s.successor(JobEvent::Preempt) is Some <==> s.successor(JobEvent::CheckpointStarted) is Some
            || s.successor(JobEvent::CheckpointCompleted) is Some,
        s.successor(JobEvent::Preempt) is Some && s.successor(JobEvent::Succeed) is Some ==> ({
            let t = s.successor(JobEvent::Preempt)->0;
            t.successor(JobEvent::Requeue) is Some && t.successor(JobEvent::Restart) is None
        }),
        s.successor(JobEvent::CheckpointCompleted) is Some ==> s.successor(
            JobEvent::Preempt,
        )->0.successor(JobEvent::Restart) is Some,
        s.successor(JobEvent::Lose) is Some ==> s.successor(JobEvent::Lose)->0.successor(
            JobEvent::Restart,
        ) is Some,
{
}

/// What a job's attempt reports decides its outcome: exactly the running job accepts
/// success and failure, each ends it, and the two ends differ.
pub proof fn a_running_job_ends_as_reported(s: JobState)
    ensures
        s.successor(JobEvent::Succeed) is Some <==> s == JobState::Running,
        s.successor(JobEvent::Fail) is Some <==> s == JobState::Running,
        s == JobState::Running ==> s.successor(JobEvent::Succeed) == Some(JobState::Succeeded)
            && s.successor(JobEvent::Fail) == Some(JobState::Failed),
{
}

/// A finished state is one that nothing leads out of, by any run of events, and the
/// three outcomes are such states and no others are.
pub proof fn outcomes_are_where_jobs_stay(s: JobState, event: JobEvent)
    ensures
        s == JobState::Succeeded || s == JobState::Failed || s == JobState::Cancelled
            ==> s.successor(event) is None,
        s.terminal() ==> s == JobState::Succeeded || s == JobState::Failed || s
            == JobState::Cancelled,
        s.successor(event) != Some(JobState::Submitted),
{
}

/// Every event but a cancellation and a preemption has one state that it is accepted in.
pub proof fn an_event_has_one_origin(s: JobState, t: JobState, event: JobEvent)
    requires
        event != JobEvent::Cancel,
        event != JobEvent::Preempt,
        s.successor(event) is Some,
        t.successor(event) is Some,
    ensures
        s == t,
{
}

/// No two states are shown by one name.
pub proof fn names_tell_states_apart(s: JobState, t: JobState)
    requires
        s.label() == t.label(),
    ensures
        s == t,
{
    reveal_strlit("Submitted");
    assert("Submitted"@[2] == 'b' && "Submitted"@[3] == 'm');
    reveal_strlit("Queued");
    assert("Queued"@[2] == 'e' && "Queued"@[3] == 'u');
    reveal_strlit("Scheduled");
    assert("Scheduled"@[2] == 'h' && "Scheduled"@[3] == 'e');
    reveal_strlit("Dispatched");
    assert("Dispatched"@[2] == 's' && "Dispatched"@[3] == 'p');
    reveal_strlit("Preparing");
    assert("Preparing"@[2] == 'e' && "Preparing"@[3] == 'p');
    reveal_strlit("Running");
    assert("Running"@[2] == 'n' && "Running"@[3] == 'n');
    reveal_strlit("Checkpointing");
    assert("Checkpointing"@[2] == 'e' && "Checkpointing"@[3] == 'c');
    reveal_strlit("Requeued");
    assert("Requeued"@[2] == 'q' && "Requeued"@[3] == 'u');
    reveal_strlit("Preempted");
    assert("Preempted"@[2] == 'e' && "Preempted"@[3] == 'e');
    reveal_strlit("Succeeded");
    assert("Succeeded"@[2] == 'c' && "Succeeded"@[3] == 'c');
    reveal_strlit("Failed");
    assert("Failed"@[2] == 'i' && "Failed"@[3] == 'l');
    reveal_strlit("Cancelled");
    assert("Cancelled"@[2] == 'n' && "Cancelled"@[3] == 'c');
    assert(s.label().len() == t.label().len());
    assert(s.label()[0] == t.label()[0]);
    assert(s.label()[2] == t.label()[2]);
    assert(s.label()[3] == t.label()[3]);
}

/// No two events are shown by one name.
pub proof fn names_tell_events_apart(d: JobEvent, e: JobEvent)
    requires
        d.label() == e.label(),
    ensures
        d == e,
{
    reveal_strlit("Validate");
    assert("Validate"@.len() == 8 && "Validate"@[2] == 'l');
    reveal_strlit("Schedule");
    assert("Schedule"@.len() == 8 && "Schedule"@[2] == 'h');
    reveal_strlit("Dispatch");
    assert("Dispatch"@.len() == 8 && "Dispatch"@[2] == 's');
    reveal_strlit("PrepareStarted");
    assert("PrepareStarted"@.len() == 14 && "PrepareStarted"@[2] == 'e');
    reveal_strlit("RunStarted");
    assert("RunStarted"@.len() == 10 && "RunStarted"@[2] == 'n');
    reveal_strlit("CheckpointStarted");
    assert("CheckpointStarted"@.len() == 17 && "CheckpointStarted"@[2] == 'e');
    reveal_strlit("CheckpointCompleted");
    assert("CheckpointCompleted"@.len() == 19 && "CheckpointCompleted"@[2] == 'e');
    reveal_strlit("Succeed");
    assert("Succeed"@.len() == 7 && "Succeed"@[2] == 'c');
    reveal_strlit("Fail");
    assert("Fail"@.len() == 4 && "Fail"@[2] == 'i');
    reveal_strlit("Lose");
    assert("Lose"@.len() == 4 && "Lose"@[2] == 's');
    reveal_strlit("Preempt");
    assert("Preempt"@.len() == 7 && "Preempt"@[2] == 'e');
    reveal_strlit("Requeue");
    assert("Requeue"@.len() == 7 && "Requeue"@[2] == 'q');
    reveal_strlit("Restart");
    assert("Restart"@.len() == 7 && "Restart"@[2] == 's');
    reveal_strlit("Cancel");
    assert("Cancel"@.len() == 6 && "Cancel"@[2] == 'n');
    assert(d.label().len() == e.label().len());
    assert(d.label()[2] == e.label()[2]);
}

} // verus!
