//! The lease: the scheduler's exclusive, expiring claim on a node for one
//! attempt, carrying the fencing token. The rules that mint and fence leases
//! stand in [`crate::domain::fencing`].
use crate::domain::ids::AttemptId;
use crate::domain::ids::FenceToken;
use crate::domain::ids::LeaseId;
use crate::domain::ids::NodeId;
use crate::domain::time::Timestamp;
use vstd::prelude::*;

verus! {

/// Lifecycle status of a lease.
#[derive(Debug, Clone, Copy, PartialEq, Eq, Hash, Structural)]
pub enum LeaseState {
    /// Live and renewable.
    Active,
    /// Lapsed without renewal: the fail-safe outcome.
    Expired,
    /// Voluntarily given up.
    Released,
}

impl Default for LeaseState {
    fn default() -> (s: Self)
        ensures
            s == LeaseState::Active,
    {
        LeaseState::Active
    }
}

/// An exclusive claim on a node for a single attempt, with an expiry and a
/// monotonic fencing token.
#[derive(Debug, Eq)]
pub struct Lease {
    /// Stable lease identifier.
    pub id: LeaseId,
    /// The attempt this lease authorizes.
    pub attempt: AttemptId,
    /// The node the attempt runs on.
    pub node: NodeId,
    /// The fencing token: this lease's version number.
    pub fence: FenceToken,
    /// When the lease was granted.
    pub granted_at: Timestamp,
    /// When the lease lapses without renewal.
    pub expires_at: Timestamp,
    /// Current lease status.
    pub state: LeaseState,
}

impl Lease {
    /// Whether two leases agree in every field.
    pub open spec fn same_as(self, other: Lease) -> bool {
        &&& self.id@ == other.id@
        &&& self.attempt@ == other.attempt@
        &&& self.node@ == other.node@
        &&& self.fence == other.fence
        &&& self.granted_at == other.granted_at
        &&& self.expires_at == other.expires_at
        &&& self.state == other.state
    }

    /// Whether the lease has lapsed by `now`: its expiry has been reached.
    #[must_use]
    pub fn is_expired_at(&self, now: Timestamp) -> (r: bool)
        ensures
            r == (now@ >= self.expires_at@),
    {
        now.as_millis() >= self.expires_at.as_millis()
    }

    /// The lease, active until `new_expiry`.
    pub open spec fn renewed(self, new_expiry: Timestamp) -> Lease {
        Lease { expires_at: new_expiry, state: LeaseState::Active, ..self }
    }

    /// Extends the expiry to `new_expiry` and marks the lease active.
    pub fn renew(&mut self, new_expiry: Timestamp)
        ensures
            *final(self) == old(self).renewed(new_expiry),
    {
        self.expires_at = new_expiry;
        self.state = LeaseState::Active;
    }
}

impl Clone for Lease {
    fn clone(&self) -> (l: Self)
        ensures
            l.same_as(*self),
    {
        Lease {
            id: self.id.clone(),
            attempt: self.attempt.clone(),
            node: self.node.clone(),
            fence: self.fence,
            granted_at: self.granted_at,
            expires_at: self.expires_at,
            state: self.state,
        }
    }
}

impl PartialEq for Lease {
    fn eq(&self, other: &Self) -> (r: bool) {
        self.id == other.id && self.attempt == other.attempt && self.node == other.node
            && self.fence == other.fence && self.granted_at == other.granted_at && self.expires_at
            == other.expires_at && self.state == other.state
    }
}

impl vstd::std_specs::cmp::PartialEqSpecImpl for Lease {
    open spec fn obeys_eq_spec() -> bool {
        true
    }

    open spec fn eq_spec(&self, other: &Self) -> bool {
        self.same_as(*other)
    }
}

/// A lease has lapsed from its expiry on and not before: it stays lapsed, and a later
/// expiry never makes it lapse sooner.
pub proof fn a_lease_lapses_at_its_expiry(
    lease: Lease,
    now: Timestamp,
    later: Timestamp,
    r: bool,
    s: bool,
)
    requires
        call_ensures(Lease::is_expired_at, (&lease, now), r),
        call_ensures(Lease::is_expired_at, (&lease, later), s),
        now@ <= later@,
    ensures
        r ==> s,
        now == lease.expires_at ==> r,
        s && !r ==> now@ < lease.expires_at@ <= later@,
        r || now@ < lease.expires_at@,
{
}

/// A renewed lease is active and lapses at its new expiry, whatever it was before; what
/// it authorizes stays as it was, and renewing it again is as renewing it once, to the
/// later call's expiry.
pub proof fn a_renewed_lease_runs_to_its_new_expiry(
    lease: Lease,
    first: Timestamp,
    second: Timestamp,
    now: Timestamp,
    lapsed: bool,
)
    requires
        call_ensures(Lease::is_expired_at, (&lease.renewed(second), now), lapsed),
    ensures
        lapsed <==> now@ >= second@,
        lease.renewed(second).state == LeaseState::Active,
        lease.renewed(second).id@ == lease.id@,
        lease.renewed(second).attempt@ == lease.attempt@,
        lease.renewed(second).node@ == lease.node@,
        lease.renewed(second).fence@ == lease.fence@,
        lease.renewed(second).granted_at@ == lease.granted_at@,
        lease.renewed(first).renewed(second) == lease.renewed(second),
{
}

/// Two leases are equal exactly where nothing tells them apart, and a copy is equal to
/// what it was made of.
pub proof fn equal_leases_are_not_told_apart(a: Lease, b: Lease, r: bool, copy: Lease, s: bool)
    requires
        call_ensures(Lease::eq, (&a, &b), r),
        call_ensures(Lease::clone, (&a,), copy),
        call_ensures(Lease::eq, (&a, &copy), s),
    ensures
        s,
        r ==> a.id@ == b.id@ && a.attempt@ == b.attempt@ && a.node@ == b.node@,
        r ==> a.fence@ == b.fence@ && a.granted_at@ == b.granted_at@,
        r ==> a.expires_at@ == b.expires_at@ && a.state == b.state,
        a == b ==> r,
{
}

} // verus!
