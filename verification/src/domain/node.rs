//! Nodes: concrete, schedulable capacity offers. A node is a host plus a
//! specific GPU, an isolation tier, advertised compute backends, a memory model
//! and a price.
use crate::domain::capability::BackendSet;
use crate::domain::capability::IsolationTier;
use crate::domain::capability::MemoryModel;
use crate::domain::capability::Version;
use crate::domain::ids::HostId;
use crate::domain::ids::NodeId;
use crate::domain::time::Timestamp;
use vstd::prelude::*;

verus! {

/// Lifecycle status of a node's schedulable capacity.
#[derive(Debug, Clone, Copy, PartialEq, Eq, Hash, Structural)]
pub enum NodeStatus {
    /// Not currently reachable; never schedulable.
    Offline,
    /// Reachable and free: the only status that the filter accepts.
    Available,
    /// Currently running an attempt or replica under a live lease.
    Leased,
    /// Winding down; not accepting new work.
    Draining,
    /// The host owner reclaimed the machine.
    OwnerEjected,
}

impl Default for NodeStatus {
    fn default() -> (s: Self)
        ensures
            s == NodeStatus::Offline,
    {
        NodeStatus::Offline
    }
}

impl NodeStatus {
    /// Whether a node in this status may be offered fresh work.
    #[must_use]
    pub fn is_schedulable(self) -> (r: bool)
        ensures
            r == (self == NodeStatus::Available),
    {
        matches!(self, NodeStatus::Available)
    }
}

/// A schedulable capacity offer. Reliability is in thousandths, `0..=1000`, and
/// price in integer micro-USD.
#[derive(Debug, Clone, PartialEq, Eq)]
pub struct Node {
    /// Stable node identifier.
    pub id: NodeId,
    /// The host advertising this node.
    pub host: HostId,
    /// Current schedulable status.
    pub status: NodeStatus,
    /// GPU model string, e.g. `RTX 4090` or `M3 Max`.
    pub gpu_model: String,
    /// Advertised memory pool (unified or discrete) and size.
    pub memory: MemoryModel,
    /// Compute backends this node can execute.
    pub backends: BackendSet,
    /// Installed GPU driver version.
    pub driver: Version,
    /// CUDA line the node can serve, when applicable.
    pub cuda: Option<Version>,
    /// Isolation tier this node can offer.
    pub isolation: IsolationTier,
    /// Coarse placement domain.
    pub region: String,
    /// Reliability score in thousandths, `0..=1000`.
    pub reliability_milli: u16,
    /// Host ask, integer micro-USD per second.
    pub price_per_sec_micro_usd: i64,
    /// Last heartbeat instant, if the node has ever reported.
    pub last_heartbeat_at: Option<Timestamp>,
}

/// Of all the statuses one alone may be offered fresh work, the one that a node is not
/// in before it reports.
pub proof fn one_status_is_schedulable(a: NodeStatus, b: NodeStatus, r: bool)
    requires
        call_ensures(NodeStatus::is_schedulable, (a,), true),
        call_ensures(NodeStatus::is_schedulable, (b,), r),
    ensures
        r <==> a == b,
        a == NodeStatus::Available,
{
}

} // verus!
