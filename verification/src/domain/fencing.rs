//! Lease and fencing rules: the split-brain guard.
//!
//! Two nodes must never both *effect* work on the same lineage, a lineage being
//! a job's chain of attempts. The guard is a monotonic fencing token: the
//! scheduler is the single writer that mints fences, every lease carries one, a
//! requeued attempt always gets a strictly greater fence, and a message stamped
//! with a lower fence is rejected.
//!
//! [`LeaseBook`] is the fencing authority. Its view is a [`BookView`]: the next
//! fence to mint and the current state of each lineage. The effect of each
//! operation on the view is [`BookView::after`], and the laws at the end speak
//! of every run of operations.
use crate::decimal::decimal;
use crate::decimal::unsigned;
use crate::domain::ids::AttemptId;
use crate::domain::ids::AttemptNo;
use crate::domain::ids::CheckpointUri;
use crate::domain::ids::FenceToken;
use crate::domain::ids::JobId;
use crate::domain::ids::LeaseId;
use crate::domain::ids::NodeId;
use crate::domain::lease::Lease;
use crate::domain::lease::LeaseState;
use crate::domain::time::Timestamp;
use vstd::hash_map::StringHashMap;
use vstd::prelude::*;

verus! {

/// The verdict on an inbound message's fence.
#[derive(Debug, Clone, Copy, PartialEq, Eq, Structural)]
pub enum FenceVerdict {
    /// The fence matches the current lease: the message is authoritative.
    Accept,
    /// A lower fence than the current one: a superseded node.
    Stale,
    /// An unknown lineage, or a fence higher than any the book minted for it.
    Invalid,
}

impl FenceVerdict {
    /// Whether the message may take effect.
    #[must_use]
    pub fn is_accept(self) -> (r: bool)
        ensures
            r == (self == FenceVerdict::Accept),
    {
        matches!(self, FenceVerdict::Accept)
    }
}

/// A newly minted lease plus the lineage bookkeeping that it advanced.
#[derive(Debug, Eq)]
pub struct LeaseGrant {
    /// The lease to persist and dispatch.
    pub lease: Lease,
    /// The attempt number this grant created (1 for the first, then monotone).
    pub attempt_no: AttemptNo,
    /// The fence minted for this grant.
    pub fence: FenceToken,
}

/// The identifier of the lease that carries `fence`. Fences are globally
/// unique, so it is stable and collides with no other.
pub open spec fn lease_id(fence: nat) -> Seq<char> {
    "lease-"@ + decimal(fence)
}

impl LeaseGrant {
    /// Whether this is the grant of attempt `attempt_no` under `fence`: an active
    /// lease for the given attempt, node and times.
    pub open spec fn grants(
        self,
        fence: nat,
        attempt_no: nat,
        attempt: Seq<char>,
        node: Seq<char>,
        granted_at: Timestamp,
        expires_at: Timestamp,
    ) -> bool {
        &&& self.fence@ == fence
        &&& self.attempt_no@ == attempt_no
        &&& self.lease.id@ == lease_id(fence)
        &&& self.lease.attempt@ == attempt
        &&& self.lease.node@ == node
        &&& self.lease.fence == self.fence
        &&& self.lease.granted_at == granted_at
        &&& self.lease.expires_at == expires_at
        &&& self.lease.state == LeaseState::Active
    }
}

impl Clone for LeaseGrant {
    fn clone(&self) -> (g: Self)
        ensures
            g.lease.same_as(self.lease),
            g.attempt_no == self.attempt_no,
            g.fence == self.fence,
    {
        LeaseGrant { lease: self.lease.clone(), attempt_no: self.attempt_no, fence: self.fence }
    }
}

impl PartialEq for LeaseGrant {
    fn eq(&self, other: &Self) -> (r: bool) {
        self.lease == other.lease && self.attempt_no == other.attempt_no && self.fence
            == other.fence
    }
}

impl vstd::std_specs::cmp::PartialEqSpecImpl for LeaseGrant {
    open spec fn obeys_eq_spec() -> bool {
        true
    }

    open spec fn eq_spec(&self, other: &Self) -> bool {
        &&& self.lease.same_as(other.lease)
        &&& self.attempt_no == other.attempt_no
        &&& self.fence == other.fence
    }
}

/// A failed fencing operation.
#[derive(Debug, Eq)]
pub enum FenceError {
    /// An initial lease for a lineage that already exists.
    DuplicateLineage {
        /// The offending job.
        job: JobId,
    },
    /// An operation on a lineage that was never granted or has been retired.
    UnknownLineage {
        /// The offending job.
        job: JobId,
    },
    /// A fenced write presented a fence lower than the lineage's current one: a
    /// superseded attempt trying to take effect.
    StaleFence {
        /// The lineage whose fence was checked.
        job: JobId,
        /// The fence the writer presented.
        presented: FenceToken,
        /// The lineage's current fence.
        current: FenceToken,
    },
    /// A fenced write presented a fence higher than the lineage's current one,
    /// which only a forger can hold.
    InvalidFence {
        /// The lineage whose fence was checked.
        job: JobId,
        /// The fence the writer presented.
        presented: FenceToken,
        /// The lineage's current fence.
        current: FenceToken,
    },
    /// The fence counter is exhausted.
    FenceExhausted,
}

impl FenceError {
    /// Whether two errors are the same, field by field.
    pub open spec fn same_as(self, other: FenceError) -> bool {
        match (self, other) {
            (
                FenceError::DuplicateLineage { job: a },
                FenceError::DuplicateLineage { job: b },
            ) => a@ == b@,
            (
                FenceError::UnknownLineage { job: a },
                FenceError::UnknownLineage { job: b },
            ) => a@ == b@,
            (
                FenceError::StaleFence { job: a, presented: p, current: c },
                FenceError::StaleFence { job: b, presented: q, current: d },
            ) => a@ == b@ && p == q && c == d,
            (
                FenceError::InvalidFence { job: a, presented: p, current: c },
                FenceError::InvalidFence { job: b, presented: q, current: d },
            ) => a@ == b@ && p == q && c == d,
            (FenceError::FenceExhausted, FenceError::FenceExhausted) => true,
            _ => false,
        }
    }

    /// The message that a reader sees.
    pub open spec fn message(self) -> Seq<char> {
        match self {
            FenceError::DuplicateLineage { job } => "lineage for job "@ + job@
                + " already exists"@,
            FenceError::UnknownLineage { job } => "no lease lineage exists for job "@ + job@,
            FenceError::StaleFence { job, presented, current } => "stale fence "@ + decimal(
                presented@ as nat,
            ) + " for job "@ + job@ + "; current fence is "@ + decimal(current@ as nat),
            FenceError::InvalidFence { job, presented, current } => "invalid fence "@ + decimal(
                presented@ as nat,
            ) + " for job "@ + job@ + "; current fence is "@ + decimal(current@ as nat),
            FenceError::FenceExhausted => "fence token space exhausted"@,
        }
    }

    /// The error as shown to a reader.
    #[must_use]
    pub fn to_string(&self) -> (s: String)
        ensures
            s@ == self.message(),
    {
        match self {
            FenceError::DuplicateLineage { job } => {
                let mut s = "lineage for job ".to_owned();
                s.append(job.as_str());
                s.append(" already exists");
                s
            },
            FenceError::UnknownLineage { job } => {
                let mut s = "no lease lineage exists for job ".to_owned();
                s.append(job.as_str());
                s
            },
            FenceError::StaleFence { job, presented, current } => fence_message(
                "stale fence ",
                job,
                *presented,
                *current,
            ),
            FenceError::InvalidFence { job, presented, current } => fence_message(
                "invalid fence ",
                job,
                *presented,
                *current,
            ),
            FenceError::FenceExhausted => "fence token space exhausted".to_owned(),
        }
    }
}

fn fence_message(head: &str, job: &JobId, presented: FenceToken, current: FenceToken) -> (s: String)
    ensures
        s@ == head@ + decimal(presented@ as nat) + " for job "@ + job@ + "; current fence is "@
            + decimal(current@ as nat),
{
    let mut s = head.to_owned();
    s.append(unsigned(presented.value()).as_str());
    s.append(" for job ");
    s.append(job.as_str());
    s.append("; current fence is ");
    s.append(unsigned(current.value()).as_str());
    s
}

impl Clone for FenceError {
    fn clone(&self) -> (e: Self)
        ensures
            e.same_as(*self),
    {
        match self {
            FenceError::DuplicateLineage { job } => FenceError::DuplicateLineage {
                job: job.clone(),
            },
            FenceError::UnknownLineage { job } => FenceError::UnknownLineage { job: job.clone() },
            FenceError::StaleFence { job, presented, current } => FenceError::StaleFence {
                job: job.clone(),
                presented: *presented,
                current: *current,
            },
            FenceError::InvalidFence { job, presented, current } => FenceError::InvalidFence {
                job: job.clone(),
                presented: *presented,
                current: *current,
            },
            FenceError::FenceExhausted => FenceError::FenceExhausted,
        }
    }
}

impl PartialEq for FenceError {
    fn eq(&self, other: &Self) -> (r: bool) {
        match (self, other) {
            (
                FenceError::DuplicateLineage { job: a },
                FenceError::DuplicateLineage { job: b },
            ) => a == b,
            (
                FenceError::UnknownLineage { job: a },
                FenceError::UnknownLineage { job: b },
            ) => a == b,
            (
                FenceError::StaleFence { job: a, presented: p, current: c },
                FenceError::StaleFence { job: b, presented: q, current: d },
            ) => a == b && *p == *q && *c == *d,
            (
                FenceError::InvalidFence { job: a, presented: p, current: c },
                FenceError::InvalidFence { job: b, presented: q, current: d },
            ) => a == b && *p == *q && *c == *d,
            (FenceError::FenceExhausted, FenceError::FenceExhausted) => true,
            _ => false,
        }
    }
}

impl vstd::std_specs::cmp::PartialEqSpecImpl for FenceError {
    open spec fn obeys_eq_spec() -> bool {
        true
    }

    open spec fn eq_spec(&self, other: &Self) -> bool {
        self.same_as(*other)
    }
}

/// The current fencing state of one lineage, as values.
pub struct LineageView {
    /// The number of the current attempt.
    pub attempt_no: nat,
    /// The current fence: the one that verifies.
    pub fence: nat,
    /// The node that the current attempt is placed on.
    pub node: Seq<char>,
    /// Whether the current attempt still holds a live lease.
    pub live: bool,
    /// The checkpoint that the next requeue resumes from.
    pub checkpoint: Option<Seq<char>>,
}

/// What a lease book holds, as values.
#[verifier::ext_equal]
pub struct BookView {
    /// The next fence to mint.
    pub next_fence: nat,
    /// The current state of each lineage, by job.
    pub lineages: Map<Seq<char>, LineageView>,
}

/// One operation on a lease book.
pub enum BookStep {
    /// The first lease of a lineage.
    Grant {
        /// The job of the lineage.
        job: Seq<char>,
        /// The node to place it on.
        node: Seq<char>,
    },
    /// A successor attempt.
    Requeue {
        /// The job of the lineage.
        job: Seq<char>,
        /// The node to place it on.
        node: Seq<char>,
        /// The checkpoint to resume from, in place of the carried one.
        resume_from: Option<Seq<char>>,
    },
    /// A checkpoint written under a fence.
    Record {
        /// The job of the lineage.
        job: Seq<char>,
        /// The fence that the writer presents.
        fence: nat,
        /// The checkpoint.
        checkpoint: Seq<char>,
    },
    /// The current attempt is declared lost.
    Lose {
        /// The job of the lineage.
        job: Seq<char>,
    },
    /// The lineage is retired under a fence.
    Complete {
        /// The job of the lineage.
        job: Seq<char>,
        /// The fence that the writer presents.
        fence: nat,
    },
}

impl BookView {
    /// A book with no lineage, whose first fence is 1.
    pub open spec fn empty() -> BookView {
        BookView { next_fence: 1, lineages: Map::empty() }
    }

    /// Whether the book holds a lineage for the job.
    pub open spec fn knows(self, job: Seq<char>) -> bool {
        self.lineages.contains_key(job)
    }

    /// Whether another fence can be minted.
    pub open spec fn can_mint(self) -> bool {
        self.next_fence < u64::MAX
    }

    /// What every book keeps: each lineage holds a fence that was minted, no two
    /// lineages hold the same fence, and attempts count from one.
    pub open spec fn wf(self) -> bool {
        &&& self.next_fence >= 1
        &&& forall|j: Seq<char>| #[trigger]
            self.knows(j) ==> 1 <= self.lineages[j].fence < self.next_fence
                && self.lineages[j].attempt_no >= 1
        &&& forall|i: Seq<char>, j: Seq<char>|
            (#[trigger] self.knows(i) && #[trigger] self.knows(j) && i != j)
                ==> self.lineages[i].fence != self.lineages[j].fence
    }

    /// The verdict on `fence` for the lineage of `job`.
    pub open spec fn verdict(self, job: Seq<char>, fence: nat) -> FenceVerdict {
        if !self.knows(job) {
            FenceVerdict::Invalid
        } else if fence == self.lineages[job].fence {
            FenceVerdict::Accept
        } else if fence < self.lineages[job].fence {
            FenceVerdict::Stale
        } else {
            FenceVerdict::Invalid
        }
    }

    /// The book after the next fence went to attempt `attempt_no` of `job`.
    pub open spec fn granted(
        self,
        job: Seq<char>,
        attempt_no: nat,
        node: Seq<char>,
        checkpoint: Option<Seq<char>>,
    ) -> BookView {
        BookView {
            next_fence: self.next_fence + 1,
            lineages: self.lineages.insert(
                job,
                LineageView { attempt_no, fence: self.next_fence, node, live: true, checkpoint },
            ),
        }
    }

    /// The checkpoint that a requeue resumes from: the given one, or else the
    /// one that the lineage carries.
    pub open spec fn resume_point(
        self,
        job: Seq<char>,
        resume_from: Option<Seq<char>>,
    ) -> Option<Seq<char>> {
        if resume_from is Some {
            resume_from
        } else {
            self.lineages[job].checkpoint
        }
    }

    /// The book with the state of one known lineage replaced.
    pub open spec fn with_lineage(self, job: Seq<char>, lineage: LineageView) -> BookView {
        BookView { lineages: self.lineages.insert(job, lineage), ..self }
    }

    /// The fence that a step mints, or `None` where it mints none.
    pub open spec fn mints(self, step: BookStep) -> Option<nat> {
        match step {
            BookStep::Grant { job, .. } => if !self.knows(job) && self.can_mint() {
                Some(self.next_fence)
            } else {
                None
            },
            BookStep::Requeue { job, .. } => if self.knows(job) && self.can_mint() {
                Some(self.next_fence)
            } else {
                None
            },
            _ => None,
        }
    }

    /// The book after one operation. A refused operation changes nothing.
    pub open spec fn after(self, step: BookStep) -> BookView {
        match step {
            BookStep::Grant { job, node } => if self.mints(step) is Some {
                self.granted(job, 1, node, None)
            } else {
                self
            },
            BookStep::Requeue { job, node, resume_from } => if self.mints(step) is Some {
                self.granted(
                    job,
                    self.lineages[job].attempt_no + 1,
                    node,
                    self.resume_point(job, resume_from),
                )
            } else {
                self
            },
            BookStep::Record { job, fence, checkpoint } => if self.verdict(job, fence)
                == FenceVerdict::Accept {
                self.with_lineage(
                    job,
                    LineageView { checkpoint: Some(checkpoint), ..self.lineages[job] },
                )
            } else {
                self
            },
            BookStep::Lose { job } => if self.knows(job) {
                self.with_lineage(job, LineageView { live: false, ..self.lineages[job] })
            } else {
                self
            },
            BookStep::Complete { job, fence } => if self.verdict(job, fence)
                == FenceVerdict::Accept {
                BookView { lineages: self.lineages.remove(job), ..self }
            } else {
                self
            },
        }
    }
}

/// The job that a step is about.
pub open spec fn step_job(step: BookStep) -> Seq<char> {
    match step {
        BookStep::Grant { job, .. } => job,
        BookStep::Requeue { job, .. } => job,
        BookStep::Record { job, .. } => job,
        BookStep::Lose { job } => job,
        BookStep::Complete { job, .. } => job,
    }
}

/// What a fenced write returns: nothing where its fence is the current one, else
/// why it was refused.
pub open spec fn fenced_result(
    book: BookView,
    job: Seq<char>,
    fence: FenceToken,
    r: Result<(), FenceError>,
) -> bool {
    match r {
        Ok(_) => book.verdict(job, fence@ as nat) == FenceVerdict::Accept,
        Err(FenceError::UnknownLineage { job: j }) => !book.knows(job) && j@ == job,
        Err(FenceError::StaleFence { job: j, presented, current }) => {
            &&& book.knows(job)
            &&& fence@ < book.lineages[job].fence
            &&& j@ == job
            &&& presented == fence
            &&& current@ == book.lineages[job].fence
        },
        Err(FenceError::InvalidFence { job: j, presented, current }) => {
            &&& book.knows(job)
            &&& fence@ > book.lineages[job].fence
            &&& j@ == job
            &&& presented == fence
            &&& current@ == book.lineages[job].fence
        },
        Err(_) => false,
    }
}

/// What granting the first lease of a lineage returns: the next fence for attempt 1, or
/// why there is none.
pub open spec fn grant_result(
    book: BookView,
    job: Seq<char>,
    attempt: Seq<char>,
    node: Seq<char>,
    granted_at: Timestamp,
    expires_at: Timestamp,
    r: Result<LeaseGrant, FenceError>,
) -> bool {
    match r {
        Ok(grant) => {
            &&& !book.knows(job)
            &&& book.can_mint()
            &&& grant.grants(book.next_fence, 1, attempt, node, granted_at, expires_at)
        },
        Err(FenceError::DuplicateLineage { job: j }) => book.knows(job) && j@ == job,
        Err(FenceError::FenceExhausted) => !book.knows(job) && !book.can_mint(),
        Err(_) => false,
    }
}

/// What requeuing a lineage returns: the next fence for the attempt after the current
/// one, or why there is none.
pub open spec fn requeue_result(
    book: BookView,
    job: Seq<char>,
    attempt: Seq<char>,
    node: Seq<char>,
    granted_at: Timestamp,
    expires_at: Timestamp,
    r: Result<LeaseGrant, FenceError>,
) -> bool {
    match r {
        Ok(grant) => {
            &&& book.knows(job)
            &&& book.can_mint()
            &&& grant.grants(
                book.next_fence,
                book.lineages[job].attempt_no + 1,
                attempt,
                node,
                granted_at,
                expires_at,
            )
        },
        Err(FenceError::UnknownLineage { job: j }) => !book.knows(job) && j@ == job,
        Err(FenceError::FenceExhausted) => book.knows(job) && !book.can_mint(),
        Err(_) => false,
    }
}

/// What marking an attempt lost returns: an error exactly where the lineage is unknown.
pub open spec fn loss_result(book: BookView, job: Seq<char>, r: Result<(), FenceError>) -> bool {
    match r {
        Ok(_) => book.knows(job),
        Err(e) => !book.knows(job) && e is UnknownLineage && e->UnknownLineage_job@ == job,
    }
}

/// The current fencing state of one lineage.
struct Lineage {
    attempt_no: AttemptNo,
    fence: FenceToken,
    node: NodeId,
    live: bool,
    checkpoint: Option<CheckpointUri>,
}

/// The characters of an optional checkpoint.
pub open spec fn checkpoint_text(c: Option<CheckpointUri>) -> Option<Seq<char>> {
    match c {
        Some(uri) => Some(uri@),
        None => None,
    }
}

impl View for Lineage {
    type V = LineageView;

    closed spec fn view(&self) -> LineageView {
        LineageView {
            attempt_no: self.attempt_no@ as nat,
            fence: self.fence@ as nat,
            node: self.node@,
            live: self.live,
            checkpoint: checkpoint_text(self.checkpoint),
        }
    }
}

/// The fencing authority: the single writer that mints and verifies fences.
///
/// It is not `Clone`, on purpose. The book *is* the one global minter: two copies
/// could each mint the same next fence for conflicting grants.
pub struct LeaseBook {
    next_fence: u64,
    lineages: StringHashMap<Lineage>,
}

impl View for LeaseBook {
    type V = BookView;

    closed spec fn view(&self) -> BookView {
        BookView {
            next_fence: self.next_fence as nat,
            lineages: self.lineages@.map_values(|l: Lineage| l@),
        }
    }
}

impl Default for LeaseBook {
    fn default() -> (book: Self)
        ensures
            book@ == BookView::empty(),
    {
        LeaseBook::new()
    }
}

impl LeaseBook {
    /// Every lineage holds a fence of its own that was minted.
    #[verifier::type_invariant]
    spec fn fences_are_minted(self) -> bool {
        self@.wf()
    }

    /// Creates an empty book whose first minted fence is `1`, so that `0` can
    /// stand for "no fence yet".
    #[must_use]
    pub fn new() -> (book: Self)
        ensures
            book@ == BookView::empty(),
            book@.wf(),
    {
        let book = LeaseBook { next_fence: 1, lineages: StringHashMap::new() };
        proof {
            assert(book@.lineages =~= Map::empty());
        }
        book
    }

    /// Mints the next fence: globally unique and strictly increasing.
    fn mint(&mut self) -> (r: Result<FenceToken, FenceError>)
        ensures
            final(self)@.lineages == old(self)@.lineages,
            final(self).lineages == old(self).lineages,
            match r {
                Ok(fence) => {
                    &&& old(self)@.can_mint()
                    &&& fence@ == old(self)@.next_fence
                    &&& final(self)@.next_fence == old(self)@.next_fence + 1
                },
                Err(e) => {
                    &&& e == FenceError::FenceExhausted
                    &&& !old(self)@.can_mint()
                    &&& final(self)@.next_fence == old(self)@.next_fence
                },
            },
    {
        proof {
            use_type_invariant(&*self);
            a_higher_counter_keeps_wf(self@);
        }
        let value: u64 = self.next_fence;
        match self.next_fence.checked_add(1) {
            Some(next) => {
                self.next_fence = next;
                Ok(FenceToken::from_persisted(value))
            },
            None => Err(FenceError::FenceExhausted),
        }
    }

    /// Makes `lineage` the current state of the lineage of `job`.
    fn put(&mut self, job: String, lineage: Lineage)
        requires
            old(self)@.with_lineage(job@, lineage@).wf(),
        ensures
            final(self)@ == old(self)@.with_lineage(job@, lineage@),
    {
        let mut lineages: StringHashMap<Lineage> = StringHashMap::new();
        std::mem::swap(&mut lineages, &mut self.lineages);
        lineages.insert(job, lineage);
        proof {
            assert(lineages@.map_values(|l: Lineage| l@) =~= old(self)@.lineages.insert(
                job@,
                lineage@,
            ));
        }
        self.lineages = lineages;
    }

    /// Builds the lease that a grant hands out.
    fn make_lease(
        attempt: AttemptId,
        node: NodeId,
        fence: FenceToken,
        granted_at: Timestamp,
        expires_at: Timestamp,
    ) -> (lease: Lease)
        ensures
            lease.id@ == lease_id(fence@ as nat),
            lease.attempt@ == attempt@,
            lease.node@ == node@,
            lease.fence == fence,
            lease.granted_at == granted_at,
            lease.expires_at == expires_at,
            lease.state == LeaseState::Active,
    {
        let mut id = "lease-".to_owned();
        id.append(unsigned(fence.value()).as_str());
        Lease {
            id: LeaseId::new(id),
            attempt,
            node,
            fence,
            granted_at,
            expires_at,
            state: LeaseState::Active,
        }
    }

    /// Grants the first lease of a lineage, as attempt 1.
    ///
    /// # Errors
    /// [`FenceError::DuplicateLineage`] where the lineage exists, or
    /// [`FenceError::FenceExhausted`] where the counter is exhausted.
    pub fn grant_initial(
        &mut self,
        job: JobId,
        attempt: AttemptId,
        node: NodeId,
        granted_at: Timestamp,
        expires_at: Timestamp,
    ) -> (r: Result<LeaseGrant, FenceError>)
        ensures
            final(self)@ == old(self)@.after(BookStep::Grant { job: job@, node: node@ }),
            final(self)@.wf(),
            grant_result(old(self)@, job@, attempt@, node@, granted_at, expires_at, r),
    {
        proof {
            use_type_invariant(&*self);
            step_keeps_wf(self@, BookStep::Grant { job: job@, node: node@ });
        }
        if self.lineages.contains_key(job.as_str()) {
            return Err(FenceError::DuplicateLineage { job });
        }
        let fence = match self.mint() {
            Ok(fence) => fence,
            Err(e) => {
                return Err(e);
            },
        };
        let attempt_no = AttemptNo::first();
        let lineage = Lineage { attempt_no, fence, node: node.clone(), live: true, checkpoint: None };
        self.put(job.to_string(), lineage);
        Ok(
            LeaseGrant {
                lease: Self::make_lease(attempt, node, fence, granted_at, expires_at),
                attempt_no,
                fence,
            },
        )
    }

    /// Requeues a lost or preempted attempt as its successor: a strictly greater
    /// fence and the next attempt number. `resume_from` is the checkpoint that
    /// the new attempt starts from; without one the lineage's carried checkpoint
    /// is reused.
    ///
    /// # Errors
    /// [`FenceError::UnknownLineage`] where the lineage does not exist, or
    /// [`FenceError::FenceExhausted`] where the counter is exhausted.
    pub fn requeue(
        &mut self,
        job: JobId,
        attempt: AttemptId,
        node: NodeId,
        granted_at: Timestamp,
        expires_at: Timestamp,
        resume_from: Option<CheckpointUri>,
    ) -> (r: Result<LeaseGrant, FenceError>)
        requires
            old(self)@.knows(job@) ==> old(self)@.lineages[job@].attempt_no < u32::MAX,
        ensures
            final(self)@ == old(self)@.after(
                BookStep::Requeue {
                    job: job@,
                    node: node@,
                    resume_from: checkpoint_text(resume_from),
                },
            ),
            final(self)@.wf(),
            requeue_result(old(self)@, job@, attempt@, node@, granted_at, expires_at, r),
    {
        proof {
            use_type_invariant(&*self);
            step_keeps_wf(
                self@,
                BookStep::Requeue {
                    job: job@,
                    node: node@,
                    resume_from: checkpoint_text(resume_from),
                },
            );
        }
        let (attempt_no, checkpoint) = match self.lineages.get(job.as_str()) {
            None => {
                return Err(FenceError::UnknownLineage { job });
            },
            Some(existing) => {
                let attempt_no = existing.attempt_no.next();
                let checkpoint = match resume_from {
                    Some(uri) => Some(uri),
                    None => match &existing.checkpoint {
                        Some(uri) => Some(uri.clone()),
                        None => None,
                    },
                };
                (attempt_no, checkpoint)
            },
        };
        let fence = match self.mint() {
            Ok(fence) => fence,
            Err(e) => {
                return Err(e);
            },
        };
        let lineage = Lineage { attempt_no, fence, node: node.clone(), live: true, checkpoint };
        self.put(job.to_string(), lineage);
        Ok(
            LeaseGrant {
                lease: Self::make_lease(attempt, node, fence, granted_at, expires_at),
                attempt_no,
                fence,
            },
        )
    }

    /// Whether `fence` is the current fence of the lineage, and if not, why a
    /// write under it is refused.
    fn fenced(&self, job: &JobId, fence: FenceToken) -> (r: Result<(), FenceError>)
        ensures
            fenced_result(self@, job@, fence, r),
    {
        match self.lineages.get(job.as_str()) {
            None => Err(FenceError::UnknownLineage { job: job.clone() }),
            Some(lineage) => {
                let current = lineage.fence;
                if fence.value() == current.value() {
                    Ok(())
                } else if fence.value() < current.value() {
                    Err(FenceError::StaleFence { job: job.clone(), presented: fence, current })
                } else {
                    Err(FenceError::InvalidFence { job: job.clone(), presented: fence, current })
                }
            },
        }
    }

    /// Records the checkpoint that the current attempt produced, so that the next
    /// requeue resumes from it.
    ///
    /// Only the holder of the current fence may record, live or not: an attempt
    /// declared lost but not yet requeued still holds it. A superseded attempt
    /// can never overwrite its successor's carried checkpoint.
    ///
    /// # Errors
    /// [`FenceError::UnknownLineage`] where the lineage does not exist,
    /// [`FenceError::StaleFence`] where `fence` is lower than the current one, and
    /// [`FenceError::InvalidFence`] where it is higher.
    pub fn record_checkpoint(
        &mut self,
        job: &JobId,
        fence: FenceToken,
        checkpoint: CheckpointUri,
    ) -> (r: Result<(), FenceError>)
        ensures
            final(self)@ == old(self)@.after(
                BookStep::Record { job: job@, fence: fence@ as nat, checkpoint: checkpoint@ },
            ),
            final(self)@.wf(),
            fenced_result(old(self)@, job@, fence, r),
    {
        proof {
            use_type_invariant(&*self);
            step_keeps_wf(
                self@,
                BookStep::Record { job: job@, fence: fence@ as nat, checkpoint: checkpoint@ },
            );
        }
        match self.fenced(job, fence) {
            Ok(_) => {},
            Err(e) => {
                return Err(e);
            },
        }
        let updated = match self.lineages.get(job.as_str()) {
            None => None,
            Some(lineage) => Some(
                Lineage {
                    attempt_no: lineage.attempt_no,
                    fence: lineage.fence,
                    node: lineage.node.clone(),
                    live: lineage.live,
                    checkpoint: Some(checkpoint),
                },
            ),
        };
        match updated {
            None => {},
            Some(lineage) => {
                self.put(job.to_string(), lineage);
            },
        }
        Ok(())
    }

    /// Marks the current attempt lost (awaiting requeue). The fence is unchanged,
    /// so until a requeue mints a greater one it still verifies: rejection
    /// follows the fence, not liveness.
    ///
    /// # Errors
    /// [`FenceError::UnknownLineage`] where the lineage does not exist.
    pub fn mark_lost(&mut self, job: &JobId) -> (r: Result<(), FenceError>)
        ensures
            final(self)@ == old(self)@.after(BookStep::Lose { job: job@ }),
            final(self)@.wf(),
            loss_result(old(self)@, job@, r),
    {
        proof {
            use_type_invariant(&*self);
            step_keeps_wf(self@, BookStep::Lose { job: job@ });
        }
        let updated = match self.lineages.get(job.as_str()) {
            None => {
                return Err(FenceError::UnknownLineage { job: job.clone() });
            },
            Some(lineage) => {
                let checkpoint = match &lineage.checkpoint {
                    Some(uri) => Some(uri.clone()),
                    None => None,
                };
                Lineage {
                    attempt_no: lineage.attempt_no,
                    fence: lineage.fence,
                    node: lineage.node.clone(),
                    live: false,
                    checkpoint,
                }
            },
        };
        self.put(job.to_string(), updated);
        Ok(())
    }

    /// Retires a completed lineage, removing its bookkeeping, so that the book
    /// does not grow by an entry for every job ever scheduled. Completion follows
    /// the fence, exactly as in [`LeaseBook::record_checkpoint`].
    ///
    /// # Errors
    /// [`FenceError::UnknownLineage`] where the lineage does not exist,
    /// [`FenceError::StaleFence`] where `fence` is lower than the current one, and
    /// [`FenceError::InvalidFence`] where it is higher.
    pub fn complete(&mut self, job: &JobId, fence: FenceToken) -> (r: Result<(), FenceError>)
        ensures
            final(self)@ == old(self)@.after(
                BookStep::Complete { job: job@, fence: fence@ as nat },
            ),
            final(self)@.wf(),
            fenced_result(old(self)@, job@, fence, r),
    {
        proof {
            use_type_invariant(&*self);
            step_keeps_wf(self@, BookStep::Complete { job: job@, fence: fence@ as nat });
        }
        match self.fenced(job, fence) {
            Ok(_) => {},
            Err(e) => {
                return Err(e);
            },
        }
        let mut lineages: StringHashMap<Lineage> = StringHashMap::new();
        std::mem::swap(&mut lineages, &mut self.lineages);
        lineages.remove(job.as_str());
        proof {
            assert(lineages@.map_values(|l: Lineage| l@) =~= old(self)@.lineages.remove(job@));
        }
        self.lineages = lineages;
        Ok(())
    }

    /// The verdict on an inbound message's fence for a lineage.
    #[must_use]
    pub fn check(&self, job: &JobId, fence: FenceToken) -> (v: FenceVerdict)
        ensures
            v == self@.verdict(job@, fence@ as nat),
            self@.wf(),
    {
        proof {
            use_type_invariant(self);
        }
        match self.lineages.get(job.as_str()) {
            None => FenceVerdict::Invalid,
            Some(lineage) => {
                if fence.value() == lineage.fence.value() {
                    FenceVerdict::Accept
                } else if fence.value() < lineage.fence.value() {
                    FenceVerdict::Stale
                } else {
                    FenceVerdict::Invalid
                }
            },
        }
    }

    /// The lineage's current fence, if it exists.
    #[must_use]
    pub fn current_fence(&self, job: &JobId) -> (r: Option<FenceToken>)
        ensures
            r is Some <==> self@.knows(job@),
            r is Some ==> r->0@ == self@.lineages[job@].fence,
    {
        match self.lineages.get(job.as_str()) {
            Some(lineage) => Some(lineage.fence),
            None => None,
        }
    }

    /// The lineage's current attempt number, if it exists.
    #[must_use]
    pub fn attempt_no(&self, job: &JobId) -> (r: Option<AttemptNo>)
        ensures
            r is Some <==> self@.knows(job@),
            r is Some ==> r->0@ == self@.lineages[job@].attempt_no,
    {
        match self.lineages.get(job.as_str()) {
            Some(lineage) => Some(lineage.attempt_no),
            None => None,
        }
    }

    /// The node that the lineage's current attempt is placed on, if it exists.
    #[must_use]
    pub fn current_node(&self, job: &JobId) -> (r: Option<NodeId>)
        ensures
            r is Some <==> self@.knows(job@),
            r is Some ==> r->0@ == self@.lineages[job@].node,
    {
        match self.lineages.get(job.as_str()) {
            Some(lineage) => Some(lineage.node.clone()),
            None => None,
        }
    }

    /// Whether the lineage's current attempt still holds a live lease.
    #[must_use]
    pub fn is_live(&self, job: &JobId) -> (r: Option<bool>)
        ensures
            r == (if self@.knows(job@) {
                Some(self@.lineages[job@].live)
            } else {
                None
            }),
    {
        match self.lineages.get(job.as_str()) {
            Some(lineage) => Some(lineage.live),
            None => None,
        }
    }

    /// The checkpoint that the lineage would resume from on its next requeue.
    #[must_use]
    pub fn lineage_checkpoint(&self, job: &JobId) -> (r: Option<CheckpointUri>)
        ensures
            checkpoint_text(r) == (if self@.knows(job@) {
                self@.lineages[job@].checkpoint
            } else {
                None
            }),
    {
        match self.lineages.get(job.as_str()) {
            Some(lineage) => match &lineage.checkpoint {
                Some(uri) => Some(uri.clone()),
                None => None,
            },
            None => None,
        }
    }
}

proof fn a_higher_counter_keeps_wf(book: BookView)
    requires
        book.wf(),
    ensures
        (BookView { next_fence: book.next_fence + 1, ..book }).wf(),
{
    let next = BookView { next_fence: book.next_fence + 1, ..book };
    assert forall|j: Seq<char>| #[trigger] next.knows(j) implies {
        &&& 1 <= next.lineages[j].fence < next.next_fence
        &&& next.lineages[j].attempt_no >= 1
    } by {
        assert(book.knows(j));
    }
    assert forall|i: Seq<char>, j: Seq<char>|
        (#[trigger] next.knows(i) && #[trigger] next.knows(j) && i
            != j) implies next.lineages[i].fence != next.lineages[j].fence by {
        assert(book.knows(i) && book.knows(j));
    }
}

/// Every operation keeps the book well formed.
pub proof fn step_keeps_wf(book: BookView, step: BookStep)
    ensures
        book.wf() ==> book.after(step).wf(),
{
    if book.wf() {
        let next = book.after(step);
        let job = step_job(step);
        assert forall|j: Seq<char>| #[trigger] next.knows(j) implies {
            &&& 1 <= next.lineages[j].fence < next.next_fence
            &&& next.lineages[j].attempt_no >= 1
        } by {
            if j != job {
                assert(book.knows(j));
            } else {
                assert(book.knows(j) || next.lineages[j].fence == book.next_fence);
            }
        }
        assert forall|i: Seq<char>, j: Seq<char>|
            (#[trigger] next.knows(i) && #[trigger] next.knows(j) && i
                != j) implies next.lineages[i].fence != next.lineages[j].fence by {
            if i != job {
                assert(book.knows(i));
            }
            if j != job {
                assert(book.knows(j));
            }
        }
    }
}

/// Exactly one fence verifies for a known lineage, and none for an unknown one.
pub proof fn exactly_one_fence_verifies(book: BookView, job: Seq<char>, fence: nat)
    ensures
        book.verdict(job, fence) == FenceVerdict::Accept <==> (book.knows(job) && fence
            == book.lineages[job].fence),
{
}

/// A requeue mints a strictly greater fence, advances the attempt number by one,
/// and leaves the old fence stale and the new one authoritative.
pub proof fn requeue_fences_off_the_old_node(
    book: BookView,
    job: Seq<char>,
    node: Seq<char>,
    resume_from: Option<Seq<char>>,
)
    requires
        book.wf(),
        book.knows(job),
        book.can_mint(),
    ensures
        ({
            let next = book.after(BookStep::Requeue { job, node, resume_from });
            let was = book.lineages[job];
            let now = next.lineages[job];
            &&& now.fence > was.fence
            &&& now.attempt_no == was.attempt_no + 1
            &&& now.node == node
            &&& now.live
            &&& next.verdict(job, was.fence) == FenceVerdict::Stale
            &&& next.verdict(job, now.fence) == FenceVerdict::Accept
        }),
{
}

/// The checkpoint of a lineage survives a requeue that names no other, and a
/// requeue that names one resumes from that.
pub proof fn checkpoint_carries_across_a_requeue(
    book: BookView,
    job: Seq<char>,
    node: Seq<char>,
    given: Seq<char>,
)
    requires
        book.knows(job),
        book.can_mint(),
    ensures
        ({
            let plain = book.after(BookStep::Requeue { job, node, resume_from: None });
            let named = book.after(BookStep::Requeue { job, node, resume_from: Some(given) });
            &&& plain.lineages[job].checkpoint == book.lineages[job].checkpoint
            &&& named.lineages[job].checkpoint == Some(given)
        }),
{
}

/// A recorded checkpoint is the one that the next requeue resumes from.
pub proof fn requeue_resumes_from_the_recorded_checkpoint(
    book: BookView,
    job: Seq<char>,
    fence: nat,
    checkpoint: Seq<char>,
    node: Seq<char>,
)
    requires
        book.verdict(job, fence) == FenceVerdict::Accept,
        book.can_mint(),
    ensures
        ({
            let recorded = book.after(BookStep::Record { job, fence, checkpoint });
            let requeued = recorded.after(BookStep::Requeue { job, node, resume_from: None });
            requeued.lineages[job].checkpoint == Some(checkpoint)
        }),
{
}

/// A lost attempt changes no fencing answer: the current fence stays
/// authoritative until a requeue.
pub proof fn losing_an_attempt_changes_no_verdict(
    book: BookView,
    lost: Seq<char>,
    job: Seq<char>,
    fence: nat,
)
    ensures
        book.after(BookStep::Lose { job: lost }).verdict(job, fence) == book.verdict(job, fence),
{
}

/// A write under any fence but the current one changes nothing at all.
pub proof fn a_refused_write_changes_nothing(
    book: BookView,
    job: Seq<char>,
    fence: nat,
    checkpoint: Seq<char>,
)
    requires
        book.verdict(job, fence) != FenceVerdict::Accept,
    ensures
        book.after(BookStep::Record { job, fence, checkpoint }) == book,
        book.after(BookStep::Complete { job, fence }) == book,
{
}

/// A retired job verifies no fence, and its identifier is free for a new lineage
/// whose fence is greater than the retired one.
pub proof fn retirement_frees_the_job_and_never_reuses_a_fence(
    book: BookView,
    job: Seq<char>,
    fence: nat,
    any: nat,
    node: Seq<char>,
)
    requires
        book.wf(),
        book.verdict(job, fence) == FenceVerdict::Accept,
    ensures
        ({
            let retired = book.after(BookStep::Complete { job, fence });
            let reborn = retired.after(BookStep::Grant { job, node });
            &&& retired.verdict(job, any) == FenceVerdict::Invalid
            &&& book.can_mint() ==> reborn.knows(job) && reborn.lineages[job].fence > fence
        }),
{
}

/// A step leaves every lineage but its own as it was.
pub proof fn other_lineages_are_unaffected(book: BookView, step: BookStep, other: Seq<char>)
    requires
        other != step_job(step),
    ensures
        book.after(step).knows(other) == book.knows(other),
        book.knows(other) ==> book.after(step).lineages[other] == book.lineages[other],
{
}

/// The book after a run of operations.
pub open spec fn run(book: BookView, steps: Seq<BookStep>) -> BookView
    decreases steps.len(),
{
    if steps.len() == 0 {
        book
    } else {
        run(book, steps.drop_last()).after(steps.last())
    }
}

/// Every fence minted by a run of operations, with the job it went to, in order.
pub open spec fn minted(book: BookView, steps: Seq<BookStep>) -> Seq<(Seq<char>, nat)>
    decreases steps.len(),
{
    if steps.len() == 0 {
        Seq::empty()
    } else {
        let before = minted(book, steps.drop_last());
        match run(book, steps.drop_last()).mints(steps.last()) {
            Some(fence) => before.push((step_job(steps.last()), fence)),
            None => before,
        }
    }
}

/// The last fence that went to `job`.
pub open spec fn newest(grants: Seq<(Seq<char>, nat)>, job: Seq<char>) -> Option<nat>
    decreases grants.len(),
{
    if grants.len() == 0 {
        None
    } else if grants.last().0 == job {
        Some(grants.last().1)
    } else {
        newest(grants.drop_last(), job)
    }
}

/// How many attempts `job` has had since it was last granted afresh.
pub open spec fn attempts(book: BookView, steps: Seq<BookStep>, job: Seq<char>) -> nat
    decreases steps.len(),
{
    if steps.len() == 0 {
        0
    } else {
        let before = run(book, steps.drop_last());
        let count = attempts(book, steps.drop_last(), job);
        if step_job(steps.last()) != job {
            count
        } else if before.mints(steps.last()) is Some {
            count + 1
        } else if before.after(steps.last()).knows(job) {
            count
        } else {
            0
        }
    }
}

/// Whatever operations run, the book stays well formed.
pub proof fn every_run_keeps_wf(book: BookView, steps: Seq<BookStep>)
    requires
        book.wf(),
    ensures
        run(book, steps).wf(),
    decreases steps.len(),
{
    if steps.len() > 0 {
        every_run_keeps_wf(book, steps.drop_last());
        step_keeps_wf(run(book, steps.drop_last()), steps.last());
    }
}

/// Whatever operations run, fences only ever increase: each is greater than all
/// that were minted before it, for any job, so none is minted twice.
pub proof fn fences_are_globally_increasing(book: BookView, steps: Seq<BookStep>)
    ensures
        run(book, steps).next_fence >= book.next_fence,
        forall|i: int|
            0 <= i < minted(book, steps).len() ==> book.next_fence <= (#[trigger] minted(
                book,
                steps,
            )[i]).1 < run(book, steps).next_fence,
        forall|i: int, j: int|
            0 <= i < j < minted(book, steps).len() ==> (#[trigger] minted(book, steps)[i]).1 < (
            #[trigger] minted(book, steps)[j]).1,
    decreases steps.len(),
{
    if steps.len() > 0 {
        let before = steps.drop_last();
        fences_are_globally_increasing(book, before);
        let g = minted(book, steps);
        let h = minted(book, before);
        assert forall|i: int| 0 <= i < g.len() implies book.next_fence <= (#[trigger] g[i]).1 < run(
            book,
            steps,
        ).next_fence by {
            if i < h.len() {
                assert(g[i] == h[i]);
            }
        }
        assert forall|i: int, j: int| 0 <= i < j < g.len() implies (#[trigger] g[i]).1 < (
        #[trigger] g[j]).1 by {
            assert(g[i] == h[i]);
            if j < h.len() {
                assert(g[j] == h[j]);
            }
        }
    }
}

/// The fence that a known lineage holds is the newest that was minted for it.
proof fn a_lineage_holds_its_newest_fence(steps: Seq<BookStep>, job: Seq<char>)
    ensures
        run(BookView::empty(), steps).knows(job) ==> newest(
            minted(BookView::empty(), steps),
            job,
        ) == Some(run(BookView::empty(), steps).lineages[job].fence),
    decreases steps.len(),
{
    if steps.len() > 0 {
        let b0 = BookView::empty();
        let before = steps.drop_last();
        a_lineage_holds_its_newest_fence(before, job);
        let g = minted(b0, steps);
        let h = minted(b0, before);
        if run(b0, before).mints(steps.last()) is Some {
            assert(g.drop_last() =~= h);
        }
    }
}

proof fn newest_is_an_upper_bound(grants: Seq<(Seq<char>, nat)>, job: Seq<char>, i: int)
    requires
        0 <= i < grants.len(),
        grants[i].0 == job,
        forall|a: int, b: int|
            0 <= a < b < grants.len() ==> (#[trigger] grants[a]).1 < (#[trigger] grants[b]).1,
    ensures
        newest(grants, job) is Some,
        newest(grants, job)->0 >= grants[i].1,
    decreases grants.len(),
{
    if grants.last().0 != job {
        let h = grants.drop_last();
        assert(h[i] == grants[i]);
        assert forall|a: int, b: int| 0 <= a < b < h.len() implies (#[trigger] h[a]).1 < (
        #[trigger] h[b]).1 by {
            assert(h[a] == grants[a] && h[b] == grants[b]);
        }
        newest_is_an_upper_bound(h, job, i);
    }
}

/// No split brain: whatever operations have run, of all the fences ever minted
/// for a job only the newest can verify. While the lineage exists the newest
/// does verify, and every older one is stale.
pub proof fn only_the_newest_fence_verifies(steps: Seq<BookStep>, job: Seq<char>, i: int)
    requires
        0 <= i < minted(BookView::empty(), steps).len(),
        minted(BookView::empty(), steps)[i].0 == job,
    ensures
        ({
            let book = run(BookView::empty(), steps);
            let grants = minted(BookView::empty(), steps);
            let fence = grants[i].1;
            &&& book.knows(job) && newest(grants, job) == Some(fence) ==> book.verdict(job, fence)
                == FenceVerdict::Accept
            &&& book.knows(job) && newest(grants, job) != Some(fence) ==> book.verdict(job, fence)
                == FenceVerdict::Stale
            &&& !book.knows(job) ==> book.verdict(job, fence) == FenceVerdict::Invalid
        }),
{
    a_lineage_holds_its_newest_fence(steps, job);
    fences_are_globally_increasing(BookView::empty(), steps);
    newest_is_an_upper_bound(minted(BookView::empty(), steps), job, i);
}

proof fn runs_compose(book: BookView, steps: Seq<BookStep>, more: Seq<BookStep>)
    ensures
        run(book, steps + more) == run(run(book, steps), more),
        minted(book, steps + more) == minted(book, steps) + minted(run(book, steps), more),
    decreases more.len(),
{
    if more.len() == 0 {
        assert(steps + more =~= steps);
        assert(minted(book, steps) + minted(run(book, steps), more) =~= minted(book, steps));
    } else {
        assert((steps + more).drop_last() =~= steps + more.drop_last());
        assert((steps + more).last() == more.last());
        runs_compose(book, steps, more.drop_last());
        assert(minted(book, steps + more) =~= minted(book, steps) + minted(
            run(book, steps),
            more,
        ));
    }
}

/// A superseded fence never takes effect again: once a later fence has been
/// minted for the job, no further run of operations makes the earlier one verify.
pub proof fn a_superseded_fence_stays_fenced_off(
    steps: Seq<BookStep>,
    more: Seq<BookStep>,
    i: int,
    j: int,
)
    requires
        0 <= i < j < minted(BookView::empty(), steps).len(),
        minted(BookView::empty(), steps)[i].0 == minted(BookView::empty(), steps)[j].0,
    ensures
        run(BookView::empty(), steps + more).verdict(
            minted(BookView::empty(), steps)[i].0,
            minted(BookView::empty(), steps)[i].1,
        ) != FenceVerdict::Accept,
{
    let b0 = BookView::empty();
    runs_compose(b0, steps, more);
    let g = minted(b0, steps + more);
    assert(g[i] == minted(b0, steps)[i]);
    assert(g[j] == minted(b0, steps)[j]);
    fences_are_globally_increasing(b0, steps + more);
    newest_is_an_upper_bound(g, g[j].0, j);
    only_the_newest_fence_verifies(steps + more, g[i].0, i);
}

/// Whatever operations run, the attempts of a lineage are numbered 1, 2, 3, ...
/// without a gap: the current number is how many attempts there have been since
/// the lineage was last granted afresh.
pub proof fn attempts_are_numbered_without_gaps(steps: Seq<BookStep>, job: Seq<char>)
    ensures
        ({
            let book = run(BookView::empty(), steps);
            let count = attempts(BookView::empty(), steps, job);
            if book.knows(job) {
                book.lineages[job].attempt_no == count
            } else {
                count == 0
            }
        }),
    decreases steps.len(),
{
    if steps.len() > 0 {
        attempts_are_numbered_without_gaps(steps.drop_last(), job);
    }
}

/// Losing an attempt changes nothing of any lineage but that the lost one is no longer
/// live: attempt number, fence, node and checkpoint are as before, and the counter too.
pub proof fn losing_an_attempt_only_ends_its_lease(
    book: BookView,
    job: Seq<char>,
    other: Seq<char>,
)
    requires
        book.knows(job),
    ensures
        ({
            let after = book.after(BookStep::Lose { job });
            let was = book.lineages[job];
            let now = after.lineages[job];
            &&& after.knows(job)
            &&& !now.live
            &&& now.attempt_no == was.attempt_no
            &&& now.fence == was.fence
            &&& now.node == was.node
            &&& now.checkpoint == was.checkpoint
            &&& after.next_fence == book.next_fence
            &&& after.knows(other) == book.knows(other)
            &&& other != job && book.knows(other) ==> after.lineages[other] == book.lineages[other]
        }),
{
}

/// A lost attempt's progress is kept: a checkpoint recorded under the current fence, then
/// the loss of the attempt, then a requeue that names no checkpoint, leave exactly the
/// recorded checkpoint as the lineage's, and the requeued attempt is the next one, live
/// on its node.
pub proof fn a_lost_attempts_checkpoint_is_resumed_from(
    book: BookView,
    job: Seq<char>,
    fence: nat,
    checkpoint: Seq<char>,
    node: Seq<char>,
)
    requires
        book.verdict(job, fence) == FenceVerdict::Accept,
        book.can_mint(),
    ensures
        ({
            let recorded = book.after(BookStep::Record { job, fence, checkpoint });
            let lost = recorded.after(BookStep::Lose { job });
            let requeued = lost.after(BookStep::Requeue { job, node, resume_from: None });
            &&& lost.lineages[job].checkpoint == Some(checkpoint)
            &&& requeued.lineages[job].checkpoint == Some(checkpoint)
            &&& requeued.lineages[job].attempt_no == book.lineages[job].attempt_no + 1
            &&& requeued.lineages[job].node == node
            &&& requeued.lineages[job].live
        }),
{
}

/// Recording a checkpoint under the current fence changes that and nothing else, of this
/// lineage or any other.
pub proof fn recording_changes_the_checkpoint_alone(
    book: BookView,
    job: Seq<char>,
    fence: nat,
    checkpoint: Seq<char>,
    other: Seq<char>,
)
    requires
        book.verdict(job, fence) == FenceVerdict::Accept,
    ensures
        ({
            let after = book.after(BookStep::Record { job, fence, checkpoint });
            let was = book.lineages[job];
            let now = after.lineages[job];
            &&& after.knows(other) == book.knows(other)
            &&& other != job && book.knows(other) ==> after.lineages[other] == book.lineages[other]
            &&& now.checkpoint == Some(checkpoint)
            &&& now.attempt_no == was.attempt_no
            &&& now.fence == was.fence
            &&& now.node == was.node
            &&& now.live == was.live
            &&& after.next_fence == book.next_fence
            &&& after.verdict(job, fence) == FenceVerdict::Accept
        }),
{
}

/// A lineage starts cold: its first attempt is number one, live on its node, without a
/// checkpoint, under a fence that no lineage held before and that verifies at once.
pub proof fn a_lineage_starts_cold(book: BookView, job: Seq<char>, node: Seq<char>, old: Seq<char>)
    requires
        book.wf(),
        !book.knows(job),
        book.can_mint(),
    ensures
        ({
            let after = book.after(BookStep::Grant { job, node });
            let now = after.lineages[job];
            &&& after.knows(job)
            &&& now.attempt_no == 1
            &&& now.live
            &&& now.node == node
            &&& now.checkpoint is None
            &&& after.verdict(job, now.fence) == FenceVerdict::Accept
            &&& book.knows(old) ==> book.lineages[old].fence < now.fence
            &&& after.next_fence > now.fence
        }),
{
}

/// What cannot be done leaves the book as it was: a second grant of a lineage, a requeue
/// or a loss of an unknown one, and anything that needs a fence where none is left.
pub proof fn a_refused_operation_changes_nothing(
    book: BookView,
    job: Seq<char>,
    node: Seq<char>,
    resume_from: Option<Seq<char>>,
)
    ensures
        book.knows(job) ==> book.after(BookStep::Grant { job, node }) == book,
        !book.knows(job) ==> book.after(BookStep::Requeue { job, node, resume_from }) == book,
        !book.knows(job) ==> book.after(BookStep::Lose { job }) == book,
        !book.can_mint() ==> book.after(BookStep::Grant { job, node }) == book && book.after(
            BookStep::Requeue { job, node, resume_from },
        ) == book,
{
}

/// A retired lineage starts over: granted again, it is at attempt one and carries nothing
/// of the checkpoint it had.
pub proof fn a_retired_lineage_starts_over(
    book: BookView,
    job: Seq<char>,
    fence: nat,
    node: Seq<char>,
    other: Seq<char>,
)
    requires
        book.verdict(job, fence) == FenceVerdict::Accept,
        book.can_mint(),
    ensures
        ({
            let retired = book.after(BookStep::Complete { job, fence });
            let reborn = retired.after(BookStep::Grant { job, node });
            &&& !retired.knows(job)
            &&& retired.next_fence == book.next_fence
            &&& other != job ==> retired.knows(other) == book.knows(other)
            &&& other != job && book.knows(other) ==> retired.lineages[other]
                == book.lineages[other]
            &&& reborn.lineages[job].attempt_no == 1
            &&& reborn.lineages[job].checkpoint is None
        }),
{
}

/// A write is refused for the reason that the fence check gives: accepted exactly where
/// the check accepts, stale where it is stale, and invalid or unknown where it is invalid,
/// with the fences that were compared.
pub proof fn a_refused_write_says_what_the_check_says(
    book: BookView,
    job: Seq<char>,
    fence: FenceToken,
    r: Result<(), FenceError>,
)
    requires
        fenced_result(book, job, fence, r),
    ensures
        r is Ok <==> book.verdict(job, fence@ as nat) == FenceVerdict::Accept,
        r is Err && r->Err_0 is StaleFence <==> book.verdict(job, fence@ as nat)
            == FenceVerdict::Stale,
        r is Err && r->Err_0 is UnknownLineage <==> !book.knows(job),
        r is Err && r->Err_0 is InvalidFence <==> book.knows(job) && book.verdict(
            job,
            fence@ as nat,
        ) == FenceVerdict::Invalid,
        r is Err && r->Err_0 is StaleFence ==> r->Err_0->StaleFence_presented@
            < r->Err_0->StaleFence_current@,
        r is Err && r->Err_0 is InvalidFence ==> r->Err_0->InvalidFence_presented@
            > r->Err_0->InvalidFence_current@,
{
}

/// Of two fences for one lineage that are both minted, at most one verifies, and the lower
/// of two is never the one refused as too high.
pub proof fn fences_below_the_current_are_stale_and_above_are_invalid(
    book: BookView,
    job: Seq<char>,
    low: nat,
    high: nat,
)
    requires
        book.knows(job),
        low < high,
    ensures
        book.verdict(job, high) == FenceVerdict::Accept ==> book.verdict(job, low)
            == FenceVerdict::Stale,
        book.verdict(job, low) == FenceVerdict::Accept ==> book.verdict(job, high)
            == FenceVerdict::Invalid,
        book.verdict(job, low) == FenceVerdict::Invalid ==> book.verdict(job, high)
            == FenceVerdict::Invalid,
        book.verdict(job, high) == FenceVerdict::Stale ==> book.verdict(job, low)
            == FenceVerdict::Stale,
{
}

/// A granted lease is for the attempt, the node and the fence of its grant, lapses at the
/// granted expiry and not before, and no two fences give leases of one identifier.
pub proof fn a_granted_lease_lapses_at_its_expiry(
    g: LeaseGrant,
    h: LeaseGrant,
    fence: nat,
    other: nat,
    attempt_no: nat,
    attempt: Seq<char>,
    node: Seq<char>,
    granted_at: Timestamp,
    expires_at: Timestamp,
    now: Timestamp,
    lapsed: bool,
)
    requires
        g.grants(fence, attempt_no, attempt, node, granted_at, expires_at),
        h.grants(other, attempt_no, attempt, node, granted_at, expires_at),
        call_ensures(Lease::is_expired_at, (&g.lease, now), lapsed),
    ensures
        lapsed <==> now@ >= expires_at@,
        g.lease.state == LeaseState::Active,
        g.lease.granted_at == granted_at,
        g.lease.attempt@ == attempt && g.lease.node@ == node,
        g.lease.fence@ == fence && g.fence@ == fence && g.attempt_no@ == attempt_no,
        g.lease.id@ == h.lease.id@ ==> fence == other,
{
    if g.lease.id@ == h.lease.id@ {
        let n = "lease-"@.len() as int;
        assert(lease_id(fence).skip(n) =~= decimal(fence));
        assert(lease_id(other).skip(n) =~= decimal(other));
        crate::decimal::decimal_reads_back(fence);
        crate::decimal::decimal_reads_back(other);
    }
}

/// What a first grant hands out is what the book then holds: its fence verifies, its
/// attempt is the current one, on the node of the lease, which runs from and to the given
/// instants. A grant is refused exactly where nothing is granted.
pub proof fn a_first_grant_hands_out_what_the_book_holds(
    book: BookView,
    job: Seq<char>,
    attempt: Seq<char>,
    node: Seq<char>,
    granted_at: Timestamp,
    expires_at: Timestamp,
    r: Result<LeaseGrant, FenceError>,
)
    requires
        book.wf(),
        grant_result(book, job, attempt, node, granted_at, expires_at, r),
    ensures
        ({
            let after = book.after(BookStep::Grant { job, node });
            &&& r is Ok <==> !book.knows(job) && after.knows(job)
            &&& r is Err ==> after == book
            &&& r is Err ==> (r->Err_0 is DuplicateLineage <==> book.knows(job))
            &&& r is Ok ==> {
                let g = r->Ok_0;
                &&& after.verdict(job, g.fence@ as nat) == FenceVerdict::Accept
                &&& g.attempt_no@ == after.lineages[job].attempt_no
                &&& g.lease.fence@ == g.fence@
                &&& g.lease.node@ == after.lineages[job].node
                &&& g.lease.attempt@ == attempt
                &&& g.lease.granted_at@ == granted_at@
                &&& g.lease.expires_at@ == expires_at@
            }
        }),
{
}

/// What a requeue hands out is what the book then holds, and it supersedes what was there:
/// its fence verifies and the one before is stale, and its attempt is the next one.
pub proof fn a_requeue_hands_out_what_the_book_holds(
    book: BookView,
    job: Seq<char>,
    attempt: Seq<char>,
    node: Seq<char>,
    resume_from: Option<Seq<char>>,
    granted_at: Timestamp,
    expires_at: Timestamp,
    r: Result<LeaseGrant, FenceError>,
)
    requires
        book.wf(),
        requeue_result(book, job, attempt, node, granted_at, expires_at, r),
    ensures
        ({
            let after = book.after(BookStep::Requeue { job, node, resume_from });
            &&& r is Ok <==> after.next_fence > book.next_fence
            &&& r is Err ==> after == book
            &&& r is Err ==> (r->Err_0 is UnknownLineage <==> !book.knows(job))
            &&& r is Ok ==> {
                let g = r->Ok_0;
                &&& after.verdict(job, g.fence@ as nat) == FenceVerdict::Accept
                &&& after.verdict(job, book.lineages[job].fence) == FenceVerdict::Stale
                &&& g.attempt_no@ == after.lineages[job].attempt_no
                &&& g.attempt_no@ == book.lineages[job].attempt_no + 1
                &&& g.lease.fence@ == g.fence@
                &&& g.lease.node@ == after.lineages[job].node
                &&& g.lease.attempt@ == attempt
                &&& g.lease.granted_at@ == granted_at@
                &&& g.lease.expires_at@ == expires_at@
            }
        }),
{
}

/// An attempt can be lost exactly where its lineage is known, whether or not it was lost
/// before; losing it again changes nothing more.
pub proof fn losing_twice_is_losing_once(
    book: BookView,
    job: Seq<char>,
    r: Result<(), FenceError>,
    again: Result<(), FenceError>,
)
    requires
        loss_result(book, job, r),
        loss_result(book.after(BookStep::Lose { job }), job, again),
    ensures
        r is Ok <==> book.knows(job),
        r is Ok <==> again is Ok,
        r is Err ==> r->Err_0 is UnknownLineage,
        book.after(BookStep::Lose { job }).after(BookStep::Lose { job }) == book.after(
            BookStep::Lose { job },
        ),
{
    let once = book.after(BookStep::Lose { job });
    if book.knows(job) {
        assert(once.after(BookStep::Lose { job }).lineages =~= once.lineages);
    }
}

/// What the book tells of a lineage hangs together: it knows a fence, an attempt, a node
/// and a liveness for the same jobs, and the fence that it tells is the one that it
/// accepts, and the only one.
pub proof fn what_the_book_tells_hangs_together(
    book: LeaseBook,
    job: JobId,
    fence: FenceToken,
    current: Option<FenceToken>,
    attempt: Option<AttemptNo>,
    node: Option<NodeId>,
    live: Option<bool>,
    checkpoint: Option<CheckpointUri>,
    verdict: FenceVerdict,
    accepted: bool,
)
    requires
        call_ensures(LeaseBook::current_fence, (&book, &job), current),
        call_ensures(LeaseBook::attempt_no, (&book, &job), attempt),
        call_ensures(LeaseBook::current_node, (&book, &job), node),
        call_ensures(LeaseBook::is_live, (&book, &job), live),
        call_ensures(LeaseBook::lineage_checkpoint, (&book, &job), checkpoint),
        call_ensures(LeaseBook::check, (&book, &job, fence), verdict),
        call_ensures(FenceVerdict::is_accept, (verdict,), accepted),
    ensures
        accepted <==> current is Some && current->0@ == fence@,
        verdict == FenceVerdict::Stale <==> current is Some && fence@ < current->0@,
        current is Some <==> attempt is Some,
        current is Some <==> node is Some,
        current is Some <==> live is Some,
        checkpoint is Some ==> current is Some,
        attempt is Some ==> attempt->0@ >= 1,
        current is Some ==> current->0@ >= 1,
{
    assert(book@.knows(job@) ==> book@.lineages[job@].fence >= 1);
}

/// What an empty book tells: nothing of any job, and that every fence is invalid.
pub proof fn a_new_book_knows_no_job(
    book: LeaseBook,
    other: LeaseBook,
    job: JobId,
    fence: FenceToken,
    current: Option<FenceToken>,
    live: Option<bool>,
    checkpoint: Option<CheckpointUri>,
    verdict: FenceVerdict,
)
    requires
        call_ensures(LeaseBook::new, (), book),
        call_ensures(LeaseBook::default, (), other),
        call_ensures(LeaseBook::current_fence, (&book, &job), current),
        call_ensures(LeaseBook::is_live, (&book, &job), live),
        call_ensures(LeaseBook::lineage_checkpoint, (&book, &job), checkpoint),
        call_ensures(LeaseBook::check, (&book, &job, fence), verdict),
    ensures
        other@ == book@,
        current is None,
        live is None,
        checkpoint is None,
        verdict == FenceVerdict::Invalid,
{
}

/// The getters tell the state that the last operation on a lineage left: where a book is
/// as another is after a grant, a requeue, a recording or a loss, it tells the node, the
/// checkpoint and the liveness that this gave.
pub proof fn the_getters_tell_what_an_operation_left(
    before: BookView,
    book: LeaseBook,
    job: JobId,
    step: BookStep,
    attempt: Option<AttemptNo>,
    node: Option<NodeId>,
    live: Option<bool>,
    checkpoint: Option<CheckpointUri>,
)
    requires
        before.wf(),
        before.can_mint(),
        step_job(step) == job@,
        book@ == before.after(step),
        call_ensures(LeaseBook::attempt_no, (&book, &job), attempt),
        call_ensures(LeaseBook::current_node, (&book, &job), node),
        call_ensures(LeaseBook::is_live, (&book, &job), live),
        call_ensures(LeaseBook::lineage_checkpoint, (&book, &job), checkpoint),
    ensures
        step is Grant && !before.knows(job@) ==> {
            &&& attempt is Some && attempt->0@ == 1
            &&& node is Some && node->0@ == step->Grant_node
            &&& live == Some(true)
            &&& checkpoint is None
        },
        step is Requeue && before.knows(job@) ==> {
            &&& attempt is Some && attempt->0@ == before.lineages[job@].attempt_no + 1
            &&& node is Some && node->0@ == step->Requeue_node
            &&& live == Some(true)
            &&& step->resume_from is Some ==> checkpoint is Some && checkpoint->0@
                == step->resume_from->0
        },
        step is Record && before.verdict(job@, step->Record_fence) == FenceVerdict::Accept ==> {
            &&& checkpoint is Some
            &&& checkpoint->0@ == step->checkpoint
            &&& live == Some(before.lineages[job@].live)
        },
        step is Lose && before.knows(job@) ==> {
            &&& live == Some(false)
            &&& checkpoint_text(checkpoint) == before.lineages[job@].checkpoint
            &&& node is Some && node->0@ == before.lineages[job@].node
        },
        step is Complete && before.verdict(job@, step->Complete_fence) == FenceVerdict::Accept ==> {
            &&& attempt is None
            &&& node is None
            &&& live is None
            &&& checkpoint is None
        },
{
}

/// From an empty book on, fences count the grants: the first is one, so that zero is no
/// fence, and each is one more than the one before, for whichever job.
pub proof fn fences_count_the_grants(steps: Seq<BookStep>, i: int)
    requires
        0 <= i < minted(BookView::empty(), steps).len(),
    ensures
        minted(BookView::empty(), steps)[i].1 == i + 1,
        run(BookView::empty(), steps).next_fence == minted(BookView::empty(), steps).len() + 1,
{
    fences_are_counted(steps);
}

proof fn fences_are_counted(steps: Seq<BookStep>)
    ensures
        run(BookView::empty(), steps).next_fence == minted(BookView::empty(), steps).len() + 1,
        forall|i: int|
            0 <= i < minted(BookView::empty(), steps).len() ==> (#[trigger] minted(
                BookView::empty(),
                steps,
            )[i]).1 == i + 1,
    decreases steps.len(),
{
    if steps.len() > 0 {
        let before = steps.drop_last();
        fences_are_counted(before);
        let g = minted(BookView::empty(), steps);
        let h = minted(BookView::empty(), before);
        assert forall|i: int| 0 <= i < g.len() implies (#[trigger] g[i]).1 == i + 1 by {
            if i < h.len() {
                assert(g[i] == h[i]);
            }
        }
    }
}

/// Two grants are equal exactly where nothing tells them apart, and a copy is equal to
/// what it was made of.
pub proof fn equal_grants_are_not_told_apart(
    a: LeaseGrant,
    b: LeaseGrant,
    r: bool,
    copy: LeaseGrant,
    s: bool,
)
    requires
        call_ensures(LeaseGrant::eq, (&a, &b), r),
        call_ensures(LeaseGrant::clone, (&a,), copy),
        call_ensures(LeaseGrant::eq, (&a, &copy), s),
    ensures
        s,
        a == b ==> r,
        r ==> a.fence@ == b.fence@ && a.attempt_no@ == b.attempt_no@,
        r ==> a.lease.id@ == b.lease.id@ && a.lease.node@ == b.lease.node@,
        r ==> a.lease.attempt@ == b.lease.attempt@ && a.lease.expires_at@ == b.lease.expires_at@,
{
}

/// Equal failures say the same, are of one kind and concern one job; a failure equals its
/// copy.
pub proof fn equal_failures_say_the_same(
    a: FenceError,
    b: FenceError,
    r: bool,
    copy: FenceError,
    s: bool,
    shown_a: String,
    shown_b: String,
)
    requires
        call_ensures(FenceError::eq, (&a, &b), r),
        call_ensures(FenceError::clone, (&a,), copy),
        call_ensures(FenceError::eq, (&a, &copy), s),
        call_ensures(FenceError::to_string, (&a,), shown_a),
        call_ensures(FenceError::to_string, (&b,), shown_b),
    ensures
        s,
        a == b ==> r,
        r ==> shown_a@ == shown_b@,
        r ==> (a is DuplicateLineage <==> b is DuplicateLineage),
        r ==> (a is UnknownLineage <==> b is UnknownLineage),
        r ==> (a is StaleFence <==> b is StaleFence),
        r ==> (a is InvalidFence <==> b is InvalidFence),
        r && a is StaleFence ==> a->StaleFence_presented == b->StaleFence_presented
            && a->StaleFence_current == b->StaleFence_current,
        r && a is InvalidFence ==> a->InvalidFence_presented == b->InvalidFence_presented
            && a->InvalidFence_current == b->InvalidFence_current,
{
}

} // verus!
