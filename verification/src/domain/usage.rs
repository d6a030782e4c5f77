//! Usage records: the per-window meter readings that drive usage accounting,
//! and the plausibility check on each. A record carries its attempt's fence, so
//! that readings of a superseded node are fenced off before they can bill.
use crate::domain::ids::AttemptId;
use crate::domain::ids::FenceToken;
use crate::domain::ids::HostId;
use crate::domain::ids::NodeId;
use crate::domain::time::Timestamp;
use crate::number::clamp_i64;
use vstd::prelude::*;

verus! {

/// Validation state of a usage record.
#[derive(Debug, Clone, Copy, PartialEq, Eq, Hash, Structural)]
pub enum UsageValidation {
    /// Not yet checked.
    Pending,
    /// Passed plausibility and signature checks.
    Valid,
    /// Failed plausibility: quarantined, not billed.
    Implausible,
    /// Under dispute.
    Disputed,
}

impl Default for UsageValidation {
    fn default() -> (v: Self)
        ensures
            v == UsageValidation::Pending,
    {
        UsageValidation::Pending
    }
}

/// A per-window meter reading. `seq` is monotonic per attempt; the pair of
/// attempt and `seq` is the idempotency key.
#[derive(Debug, Clone, PartialEq, Eq)]
pub struct UsageRecord {
    /// The attempt being metered.
    pub attempt: AttemptId,
    /// The node that produced the reading.
    pub node: NodeId,
    /// The host that owns the node.
    pub host: HostId,
    /// The attempt's fencing token.
    pub fence: FenceToken,
    /// Monotonic per-attempt sequence number.
    pub seq: u64,
    /// Start of the metered window.
    pub window_start: Timestamp,
    /// End of the metered window.
    pub window_end: Timestamp,
    /// Billable seconds in the window (never more than wall-clock).
    pub billable_secs: u32,
    /// Reported GPU utilization percent, if measured.
    pub gpu_util_pct: Option<u8>,
    /// Current validation state.
    pub validation: UsageValidation,
}

impl UsageRecord {
    /// Whole seconds spanned by the window, none where it runs backwards.
    pub open spec fn spanned_secs(self) -> int {
        let millis = clamp_i64(self.window_end@ - self.window_start@);
        if millis < 0 {
            0
        } else {
            millis / 1000
        }
    }

    /// Whole seconds spanned by the window (never negative).
    #[must_use]
    pub fn window_secs(&self) -> (secs: i64)
        ensures
            secs == self.spanned_secs(),
            secs >= 0,
    {
        let millis: i64 = self.window_end.saturating_millis_since(self.window_start);
        if millis < 0 {
            0
        } else {
            millis / 1_000
        }
    }

    /// Whether the record is self-consistent: the window does not run backwards,
    /// billable seconds do not exceed wall-clock, and utilization is a percentage.
    #[must_use]
    pub fn is_plausible(&self) -> (r: bool)
        ensures
            r == {
                &&& self.window_end@ >= self.window_start@
                &&& self.billable_secs <= self.spanned_secs()
                &&& (self.gpu_util_pct is Some ==> self.gpu_util_pct->0 <= 100)
            },
    {
        let util_ok: bool = match self.gpu_util_pct {
            Some(util) => util <= 100,
            None => true,
        };
        self.window_end.as_millis() >= self.window_start.as_millis() && self.billable_secs as i64
            <= self.window_secs() && util_ok
    }
}

/// A plausible record never bills more time than its window holds.
pub proof fn a_plausible_record_bills_within_its_window(r: UsageRecord)
    requires
        r.window_end@ >= r.window_start@,
        r.billable_secs <= r.spanned_secs(),
    ensures
        r.billable_secs * 1000 <= r.window_end@ - r.window_start@,
{
}

/// What [`UsageRecord::is_plausible`] accepts bills no more time than its window holds,
/// in whole seconds, and states no utilization above all of it.
pub proof fn what_is_accepted_is_within_its_window(r: UsageRecord)
    requires
        call_ensures(UsageRecord::is_plausible, (&r,), true),
    ensures
        r.window_start@ <= r.window_end@,
        r.billable_secs * 1000 <= r.window_end@ - r.window_start@,
        r.gpu_util_pct is Some ==> r.gpu_util_pct->0 <= 100,
{
}

/// What is refused is out of bounds: a window that runs backwards, more seconds billed
/// than the window holds whole, or a utilization above all of it.
pub proof fn what_is_refused_is_out_of_bounds(r: UsageRecord)
    requires
        call_ensures(UsageRecord::is_plausible, (&r,), false),
        r.window_end@ - r.window_start@ <= i64::MAX,
    ensures
        ({
            ||| r.window_end@ < r.window_start@
            ||| r.billable_secs * 1000 > r.window_end@ - r.window_start@
            ||| r.gpu_util_pct is Some && r.gpu_util_pct->0 > 100
        }),
{
}

/// The seconds of a window are those that fit it whole, and none where it runs
/// backwards.
pub proof fn a_window_holds_its_whole_seconds(r: UsageRecord, secs: i64)
    requires
        call_ensures(UsageRecord::window_secs, (&r,), secs),
        r.window_end@ - r.window_start@ <= i64::MAX,
    ensures
        r.window_end@ >= r.window_start@ ==> secs * 1000 <= r.window_end@ - r.window_start@ < (secs
            + 1) * 1000,
        r.window_end@ < r.window_start@ ==> secs == 0,
{
}

} // verus!
