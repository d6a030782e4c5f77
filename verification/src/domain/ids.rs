//! Identifiers and monotonic tokens of the domain model.
//!
//! Every identifier is a type of its own, so that a `JobId` can never be passed
//! where a `NodeId` is expected. Identifiers are text assigned upstream, and a
//! contract speaks of the characters (`id@`). [`FenceToken`] and [`AttemptNo`]
//! are the two ordered tokens that the fencing rules depend on.
use crate::decimal::unsigned;
use crate::decimal::decimal;
use crate::text::IntoText;
use vstd::prelude::*;

verus! {

/// Identifies a renter job: the unit of renter intent and the key of a fencing lineage.
#[derive(Debug, Eq, Hash, PartialOrd, Ord)]
pub struct JobId(String);

impl View for JobId {
    type V = Seq<char>;

    closed spec fn view(&self) -> Seq<char> {
        self.0@
    }
}

impl JobId {
    /// Wraps an owned or borrowed string as this identifier.
    #[must_use]
    pub fn new(value: impl IntoText) -> (id: Self)
        ensures
            id@ == value.text(),
    {
        JobId(value.into_text())
    }

    /// Borrows the identifier as a string slice.
    #[must_use]
    pub fn as_str(&self) -> (s: &str)
        ensures
            s@ == self@,
    {
        self.0.as_str()
    }

    /// The identifier as shown to a reader.
    #[must_use]
    pub fn to_string(&self) -> (s: String)
        ensures
            s@ == self@,
    {
        self.0.clone()
    }
}

impl Clone for JobId {
    fn clone(&self) -> (id: Self)
        ensures
            id@ == self@,
    {
        JobId(self.0.clone())
    }
}

impl PartialEq for JobId {
    fn eq(&self, other: &Self) -> (r: bool) {
        self.0 == other.0
    }
}

impl vstd::std_specs::cmp::PartialEqSpecImpl for JobId {
    open spec fn obeys_eq_spec() -> bool {
        true
    }

    open spec fn eq_spec(&self, other: &Self) -> bool {
        self@ == other@
    }
}

impl From<String> for JobId {
    fn from(value: String) -> (id: Self)
        ensures
            id@ == value@,
    {
        JobId(value)
    }
}

impl vstd::std_specs::convert::FromSpecImpl<String> for JobId {
    open spec fn obeys_from_spec() -> bool {
        true
    }

    closed spec fn from_spec(value: String) -> Self {
        JobId(value)
    }
}

impl<'a> From<&'a str> for JobId {
    fn from(value: &'a str) -> (id: Self)
        ensures
            id@ == value@,
    {
        JobId(value.to_owned())
    }
}

impl<'a> vstd::std_specs::convert::FromSpecImpl<&'a str> for JobId {
    open spec fn obeys_from_spec() -> bool {
        false
    }

    open spec fn from_spec(value: &'a str) -> Self {
        arbitrary()
    }
}

/// Identifies one placement (attempt) of a job on a node.
#[derive(Debug, Eq, Hash, PartialOrd, Ord)]
pub struct AttemptId(String);

impl View for AttemptId {
    type V = Seq<char>;

    closed spec fn view(&self) -> Seq<char> {
        self.0@
    }
}

impl AttemptId {
    /// Wraps an owned or borrowed string as this identifier.
    #[must_use]
    pub fn new(value: impl IntoText) -> (id: Self)
        ensures
            id@ == value.text(),
    {
        AttemptId(value.into_text())
    }

    /// Borrows the identifier as a string slice.
    #[must_use]
    pub fn as_str(&self) -> (s: &str)
        ensures
            s@ == self@,
    {
        self.0.as_str()
    }

    /// The identifier as shown to a reader.
    #[must_use]
    pub fn to_string(&self) -> (s: String)
        ensures
            s@ == self@,
    {
        self.0.clone()
    }
}

impl Clone for AttemptId {
    fn clone(&self) -> (id: Self)
        ensures
            id@ == self@,
    {
        AttemptId(self.0.clone())
    }
}

impl PartialEq for AttemptId {
    fn eq(&self, other: &Self) -> (r: bool) {
        self.0 == other.0
    }
}

impl vstd::std_specs::cmp::PartialEqSpecImpl for AttemptId {
    open spec fn obeys_eq_spec() -> bool {
        true
    }

    open spec fn eq_spec(&self, other: &Self) -> bool {
        self@ == other@
    }
}

impl From<String> for AttemptId {
    fn from(value: String) -> (id: Self)
        ensures
            id@ == value@,
    {
        AttemptId(value)
    }
}

impl vstd::std_specs::convert::FromSpecImpl<String> for AttemptId {
    open spec fn obeys_from_spec() -> bool {
        true
    }

    closed spec fn from_spec(value: String) -> Self {
        AttemptId(value)
    }
}

impl<'a> From<&'a str> for AttemptId {
    fn from(value: &'a str) -> (id: Self)
        ensures
            id@ == value@,
    {
        AttemptId(value.to_owned())
    }
}

impl<'a> vstd::std_specs::convert::FromSpecImpl<&'a str> for AttemptId {
    open spec fn obeys_from_spec() -> bool {
        false
    }

    open spec fn from_spec(value: &'a str) -> Self {
        arbitrary()
    }
}

/// Identifies a schedulable capacity offer (a host, a GPU, a tier and a price).
#[derive(Debug, Eq, Hash, PartialOrd, Ord)]
pub struct NodeId(String);

impl View for NodeId {
    type V = Seq<char>;

    closed spec fn view(&self) -> Seq<char> {
        self.0@
    }
}

impl NodeId {
    /// Wraps an owned or borrowed string as this identifier.
    #[must_use]
    pub fn new(value: impl IntoText) -> (id: Self)
        ensures
            id@ == value.text(),
    {
        NodeId(value.into_text())
    }

    /// Borrows the identifier as a string slice.
    #[must_use]
    pub fn as_str(&self) -> (s: &str)
        ensures
            s@ == self@,
    {
        self.0.as_str()
    }

    /// The identifier as shown to a reader.
    #[must_use]
    pub fn to_string(&self) -> (s: String)
        ensures
            s@ == self@,
    {
        self.0.clone()
    }
}

impl Clone for NodeId {
    fn clone(&self) -> (id: Self)
        ensures
            id@ == self@,
    {
        NodeId(self.0.clone())
    }
}

impl PartialEq for NodeId {
    fn eq(&self, other: &Self) -> (r: bool) {
        self.0 == other.0
    }
}

impl vstd::std_specs::cmp::PartialEqSpecImpl for NodeId {
    open spec fn obeys_eq_spec() -> bool {
        true
    }

    open spec fn eq_spec(&self, other: &Self) -> bool {
        self@ == other@
    }
}

impl From<String> for NodeId {
    fn from(value: String) -> (id: Self)
        ensures
            id@ == value@,
    {
        NodeId(value)
    }
}

impl vstd::std_specs::convert::FromSpecImpl<String> for NodeId {
    open spec fn obeys_from_spec() -> bool {
        true
    }

    closed spec fn from_spec(value: String) -> Self {
        NodeId(value)
    }
}

impl<'a> From<&'a str> for NodeId {
    fn from(value: &'a str) -> (id: Self)
        ensures
            id@ == value@,
    {
        NodeId(value.to_owned())
    }
}

impl<'a> vstd::std_specs::convert::FromSpecImpl<&'a str> for NodeId {
    open spec fn obeys_from_spec() -> bool {
        false
    }

    open spec fn from_spec(value: &'a str) -> Self {
        arbitrary()
    }
}

/// Identifies a host machine.
#[derive(Debug, Eq, Hash, PartialOrd, Ord)]
pub struct HostId(String);

impl View for HostId {
    type V = Seq<char>;

    closed spec fn view(&self) -> Seq<char> {
        self.0@
    }
}

impl HostId {
    /// Wraps an owned or borrowed string as this identifier.
    #[must_use]
    pub fn new(value: impl IntoText) -> (id: Self)
        ensures
            id@ == value.text(),
    {
        HostId(value.into_text())
    }

    /// Borrows the identifier as a string slice.
    #[must_use]
    pub fn as_str(&self) -> (s: &str)
        ensures
            s@ == self@,
    {
        self.0.as_str()
    }

    /// The identifier as shown to a reader.
    #[must_use]
    pub fn to_string(&self) -> (s: String)
        ensures
            s@ == self@,
    {
        self.0.clone()
    }
}

impl Clone for HostId {
    fn clone(&self) -> (id: Self)
        ensures
            id@ == self@,
    {
        HostId(self.0.clone())
    }
}

impl PartialEq for HostId {
    fn eq(&self, other: &Self) -> (r: bool) {
        self.0 == other.0
    }
}

impl vstd::std_specs::cmp::PartialEqSpecImpl for HostId {
    open spec fn obeys_eq_spec() -> bool {
        true
    }

    open spec fn eq_spec(&self, other: &Self) -> bool {
        self@ == other@
    }
}

impl From<String> for HostId {
    fn from(value: String) -> (id: Self)
        ensures
            id@ == value@,
    {
        HostId(value)
    }
}

impl vstd::std_specs::convert::FromSpecImpl<String> for HostId {
    open spec fn obeys_from_spec() -> bool {
        true
    }

    closed spec fn from_spec(value: String) -> Self {
        HostId(value)
    }
}

impl<'a> From<&'a str> for HostId {
    fn from(value: &'a str) -> (id: Self)
        ensures
            id@ == value@,
    {
        HostId(value.to_owned())
    }
}

impl<'a> vstd::std_specs::convert::FromSpecImpl<&'a str> for HostId {
    open spec fn obeys_from_spec() -> bool {
        false
    }

    open spec fn from_spec(value: &'a str) -> Self {
        arbitrary()
    }
}

/// Identifies one GPU advertised by a host.
#[derive(Debug, Eq, Hash, PartialOrd, Ord)]
pub struct GpuId(String);

impl View for GpuId {
    type V = Seq<char>;

    closed spec fn view(&self) -> Seq<char> {
        self.0@
    }
}

impl GpuId {
    /// Wraps an owned or borrowed string as this identifier.
    #[must_use]
    pub fn new(value: impl IntoText) -> (id: Self)
        ensures
            id@ == value.text(),
    {
        GpuId(value.into_text())
    }

    /// Borrows the identifier as a string slice.
    #[must_use]
    pub fn as_str(&self) -> (s: &str)
        ensures
            s@ == self@,
    {
        self.0.as_str()
    }

    /// The identifier as shown to a reader.
    #[must_use]
    pub fn to_string(&self) -> (s: String)
        ensures
            s@ == self@,
    {
        self.0.clone()
    }
}

impl Clone for GpuId {
    fn clone(&self) -> (id: Self)
        ensures
            id@ == self@,
    {
        GpuId(self.0.clone())
    }
}

impl PartialEq for GpuId {
    fn eq(&self, other: &Self) -> (r: bool) {
        self.0 == other.0
    }
}

impl vstd::std_specs::cmp::PartialEqSpecImpl for GpuId {
    open spec fn obeys_eq_spec() -> bool {
        true
    }

    open spec fn eq_spec(&self, other: &Self) -> bool {
        self@ == other@
    }
}

impl From<String> for GpuId {
    fn from(value: String) -> (id: Self)
        ensures
            id@ == value@,
    {
        GpuId(value)
    }
}

impl vstd::std_specs::convert::FromSpecImpl<String> for GpuId {
    open spec fn obeys_from_spec() -> bool {
        true
    }

    closed spec fn from_spec(value: String) -> Self {
        GpuId(value)
    }
}

impl<'a> From<&'a str> for GpuId {
    fn from(value: &'a str) -> (id: Self)
        ensures
            id@ == value@,
    {
        GpuId(value.to_owned())
    }
}

impl<'a> vstd::std_specs::convert::FromSpecImpl<&'a str> for GpuId {
    open spec fn obeys_from_spec() -> bool {
        false
    }

    open spec fn from_spec(value: &'a str) -> Self {
        arbitrary()
    }
}

/// Identifies a lease: the exclusive, expiring claim on a node for an attempt.
#[derive(Debug, Eq, Hash, PartialOrd, Ord)]
pub struct LeaseId(String);

impl View for LeaseId {
    type V = Seq<char>;

    closed spec fn view(&self) -> Seq<char> {
        self.0@
    }
}

impl LeaseId {
    /// Wraps an owned or borrowed string as this identifier.
    #[must_use]
    pub fn new(value: impl IntoText) -> (id: Self)
        ensures
            id@ == value.text(),
    {
        LeaseId(value.into_text())
    }

    /// Borrows the identifier as a string slice.
    #[must_use]
    pub fn as_str(&self) -> (s: &str)
        ensures
            s@ == self@,
    {
        self.0.as_str()
    }

    /// The identifier as shown to a reader.
    #[must_use]
    pub fn to_string(&self) -> (s: String)
        ensures
            s@ == self@,
    {
        self.0.clone()
    }
}

impl Clone for LeaseId {
    fn clone(&self) -> (id: Self)
        ensures
            id@ == self@,
    {
        LeaseId(self.0.clone())
    }
}

impl PartialEq for LeaseId {
    fn eq(&self, other: &Self) -> (r: bool) {
        self.0 == other.0
    }
}

impl vstd::std_specs::cmp::PartialEqSpecImpl for LeaseId {
    open spec fn obeys_eq_spec() -> bool {
        true
    }

    open spec fn eq_spec(&self, other: &Self) -> bool {
        self@ == other@
    }
}

impl From<String> for LeaseId {
    fn from(value: String) -> (id: Self)
        ensures
            id@ == value@,
    {
        LeaseId(value)
    }
}

impl vstd::std_specs::convert::FromSpecImpl<String> for LeaseId {
    open spec fn obeys_from_spec() -> bool {
        true
    }

    closed spec fn from_spec(value: String) -> Self {
        LeaseId(value)
    }
}

impl<'a> From<&'a str> for LeaseId {
    fn from(value: &'a str) -> (id: Self)
        ensures
            id@ == value@,
    {
        LeaseId(value.to_owned())
    }
}

impl<'a> vstd::std_specs::convert::FromSpecImpl<&'a str> for LeaseId {
    open spec fn obeys_from_spec() -> bool {
        false
    }

    open spec fn from_spec(value: &'a str) -> Self {
        arbitrary()
    }
}

/// Identifies a billing account.
#[derive(Debug, Eq, Hash, PartialOrd, Ord)]
pub struct AccountId(String);

impl View for AccountId {
    type V = Seq<char>;

    closed spec fn view(&self) -> Seq<char> {
        self.0@
    }
}

impl AccountId {
    /// Wraps an owned or borrowed string as this identifier.
    #[must_use]
    pub fn new(value: impl IntoText) -> (id: Self)
        ensures
            id@ == value.text(),
    {
        AccountId(value.into_text())
    }

    /// Borrows the identifier as a string slice.
    #[must_use]
    pub fn as_str(&self) -> (s: &str)
        ensures
            s@ == self@,
    {
        self.0.as_str()
    }

    /// The identifier as shown to a reader.
    #[must_use]
    pub fn to_string(&self) -> (s: String)
        ensures
            s@ == self@,
    {
        self.0.clone()
    }
}

impl Clone for AccountId {
    fn clone(&self) -> (id: Self)
        ensures
            id@ == self@,
    {
        AccountId(self.0.clone())
    }
}

impl PartialEq for AccountId {
    fn eq(&self, other: &Self) -> (r: bool) {
        self.0 == other.0
    }
}

impl vstd::std_specs::cmp::PartialEqSpecImpl for AccountId {
    open spec fn obeys_eq_spec() -> bool {
        true
    }

    open spec fn eq_spec(&self, other: &Self) -> bool {
        self@ == other@
    }
}

impl From<String> for AccountId {
    fn from(value: String) -> (id: Self)
        ensures
            id@ == value@,
    {
        AccountId(value)
    }
}

impl vstd::std_specs::convert::FromSpecImpl<String> for AccountId {
    open spec fn obeys_from_spec() -> bool {
        true
    }

    closed spec fn from_spec(value: String) -> Self {
        AccountId(value)
    }
}

impl<'a> From<&'a str> for AccountId {
    fn from(value: &'a str) -> (id: Self)
        ensures
            id@ == value@,
    {
        AccountId(value.to_owned())
    }
}

impl<'a> vstd::std_specs::convert::FromSpecImpl<&'a str> for AccountId {
    open spec fn obeys_from_spec() -> bool {
        false
    }

    open spec fn from_spec(value: &'a str) -> Self {
        arbitrary()
    }
}

/// Identifies a serving deployment.
#[derive(Debug, Eq, Hash, PartialOrd, Ord)]
pub struct DeploymentId(String);

impl View for DeploymentId {
    type V = Seq<char>;

    closed spec fn view(&self) -> Seq<char> {
        self.0@
    }
}

impl DeploymentId {
    /// Wraps an owned or borrowed string as this identifier.
    #[must_use]
    pub fn new(value: impl IntoText) -> (id: Self)
        ensures
            id@ == value.text(),
    {
        DeploymentId(value.into_text())
    }

    /// Borrows the identifier as a string slice.
    #[must_use]
    pub fn as_str(&self) -> (s: &str)
        ensures
            s@ == self@,
    {
        self.0.as_str()
    }

    /// The identifier as shown to a reader.
    #[must_use]
    pub fn to_string(&self) -> (s: String)
        ensures
            s@ == self@,
    {
        self.0.clone()
    }
}

impl Clone for DeploymentId {
    fn clone(&self) -> (id: Self)
        ensures
            id@ == self@,
    {
        DeploymentId(self.0.clone())
    }
}

impl PartialEq for DeploymentId {
    fn eq(&self, other: &Self) -> (r: bool) {
        self.0 == other.0
    }
}

impl vstd::std_specs::cmp::PartialEqSpecImpl for DeploymentId {
    open spec fn obeys_eq_spec() -> bool {
        true
    }

    open spec fn eq_spec(&self, other: &Self) -> bool {
        self@ == other@
    }
}

impl From<String> for DeploymentId {
    fn from(value: String) -> (id: Self)
        ensures
            id@ == value@,
    {
        DeploymentId(value)
    }
}

impl vstd::std_specs::convert::FromSpecImpl<String> for DeploymentId {
    open spec fn obeys_from_spec() -> bool {
        true
    }

    closed spec fn from_spec(value: String) -> Self {
        DeploymentId(value)
    }
}

impl<'a> From<&'a str> for DeploymentId {
    fn from(value: &'a str) -> (id: Self)
        ensures
            id@ == value@,
    {
        DeploymentId(value.to_owned())
    }
}

impl<'a> vstd::std_specs::convert::FromSpecImpl<&'a str> for DeploymentId {
    open spec fn obeys_from_spec() -> bool {
        false
    }

    open spec fn from_spec(value: &'a str) -> Self {
        arbitrary()
    }
}

/// Identifies a serving replica (a long-lived attempt under a deployment).
#[derive(Debug, Eq, Hash, PartialOrd, Ord)]
pub struct ReplicaId(String);

impl View for ReplicaId {
    type V = Seq<char>;

    closed spec fn view(&self) -> Seq<char> {
        self.0@
    }
}

impl ReplicaId {
    /// Wraps an owned or borrowed string as this identifier.
    #[must_use]
    pub fn new(value: impl IntoText) -> (id: Self)
        ensures
            id@ == value.text(),
    {
        ReplicaId(value.into_text())
    }

    /// Borrows the identifier as a string slice.
    #[must_use]
    pub fn as_str(&self) -> (s: &str)
        ensures
            s@ == self@,
    {
        self.0.as_str()
    }

    /// The identifier as shown to a reader.
    #[must_use]
    pub fn to_string(&self) -> (s: String)
        ensures
            s@ == self@,
    {
        self.0.clone()
    }
}

impl Clone for ReplicaId {
    fn clone(&self) -> (id: Self)
        ensures
            id@ == self@,
    {
        ReplicaId(self.0.clone())
    }
}

impl PartialEq for ReplicaId {
    fn eq(&self, other: &Self) -> (r: bool) {
        self.0 == other.0
    }
}

impl vstd::std_specs::cmp::PartialEqSpecImpl for ReplicaId {
    open spec fn obeys_eq_spec() -> bool {
        true
    }

    open spec fn eq_spec(&self, other: &Self) -> bool {
        self@ == other@
    }
}

impl From<String> for ReplicaId {
    fn from(value: String) -> (id: Self)
        ensures
            id@ == value@,
    {
        ReplicaId(value)
    }
}

impl vstd::std_specs::convert::FromSpecImpl<String> for ReplicaId {
    open spec fn obeys_from_spec() -> bool {
        true
    }

    closed spec fn from_spec(value: String) -> Self {
        ReplicaId(value)
    }
}

impl<'a> From<&'a str> for ReplicaId {
    fn from(value: &'a str) -> (id: Self)
        ensures
            id@ == value@,
    {
        ReplicaId(value.to_owned())
    }
}

impl<'a> vstd::std_specs::convert::FromSpecImpl<&'a str> for ReplicaId {
    open spec fn obeys_from_spec() -> bool {
        false
    }

    open spec fn from_spec(value: &'a str) -> Self {
        arbitrary()
    }
}

/// A content-addressed checkpoint location carried across a requeue lineage.
#[derive(Debug, Eq, Hash, PartialOrd, Ord)]
pub struct CheckpointUri(String);

impl View for CheckpointUri {
    type V = Seq<char>;

    closed spec fn view(&self) -> Seq<char> {
        self.0@
    }
}

impl CheckpointUri {
    /// Wraps an owned or borrowed string as this identifier.
    #[must_use]
    pub fn new(value: impl IntoText) -> (id: Self)
        ensures
            id@ == value.text(),
    {
        CheckpointUri(value.into_text())
    }

    /// Borrows the identifier as a string slice.
    #[must_use]
    pub fn as_str(&self) -> (s: &str)
        ensures
            s@ == self@,
    {
        self.0.as_str()
    }

    /// The identifier as shown to a reader.
    #[must_use]
    pub fn to_string(&self) -> (s: String)
        ensures
            s@ == self@,
    {
        self.0.clone()
    }
}

impl Clone for CheckpointUri {
    fn clone(&self) -> (id: Self)
        ensures
            id@ == self@,
    {
        CheckpointUri(self.0.clone())
    }
}

impl PartialEq for CheckpointUri {
    fn eq(&self, other: &Self) -> (r: bool) {
        self.0 == other.0
    }
}

impl vstd::std_specs::cmp::PartialEqSpecImpl for CheckpointUri {
    open spec fn obeys_eq_spec() -> bool {
        true
    }

    open spec fn eq_spec(&self, other: &Self) -> bool {
        self@ == other@
    }
}

impl From<String> for CheckpointUri {
    fn from(value: String) -> (id: Self)
        ensures
            id@ == value@,
    {
        CheckpointUri(value)
    }
}

impl vstd::std_specs::convert::FromSpecImpl<String> for CheckpointUri {
    open spec fn obeys_from_spec() -> bool {
        true
    }

    closed spec fn from_spec(value: String) -> Self {
        CheckpointUri(value)
    }
}

impl<'a> From<&'a str> for CheckpointUri {
    fn from(value: &'a str) -> (id: Self)
        ensures
            id@ == value@,
    {
        CheckpointUri(value.to_owned())
    }
}

impl<'a> vstd::std_specs::convert::FromSpecImpl<&'a str> for CheckpointUri {
    open spec fn obeys_from_spec() -> bool {
        false
    }

    open spec fn from_spec(value: &'a str) -> Self {
        arbitrary()
    }
}

/// A monotonic fencing token minted by the single-writer scheduler.
///
/// The split-brain guard: a requeued attempt always receives a strictly greater
/// fence, and a message stamped with a lower fence than the current one is
/// rejected. The order of tokens is the order of their values.
#[derive(Debug, Clone, Copy, PartialEq, Eq, Hash, PartialOrd, Ord, Structural)]
pub struct FenceToken(u64);

impl View for FenceToken {
    type V = u64;

    closed spec fn view(&self) -> u64 {
        self.0
    }
}

impl FenceToken {
    /// The value of the token.
    #[must_use]
    pub fn value(self) -> (v: u64)
        ensures
            v == self@,
    {
        self.0
    }

    /// Reconstructs a token from a persisted value, the inverse of
    /// [`FenceToken::value`]. Minting new fences stays with the lease book.
    #[must_use]
    pub fn from_persisted(value: u64) -> (t: Self)
        ensures
            t@ == value,
    {
        FenceToken(value)
    }

    /// The token as shown to a reader: its value in decimal.
    #[must_use]
    pub fn to_string(&self) -> (s: String)
        ensures
            s@ == decimal(self@ as nat),
    {
        unsigned(self.0)
    }
}

/// A monotonic per-job attempt counter (1, 2, 3, ... across a requeue lineage).
#[derive(Debug, Clone, Copy, PartialEq, Eq, Hash, PartialOrd, Ord, Structural)]
pub struct AttemptNo(u32);

impl View for AttemptNo {
    type V = u32;

    closed spec fn view(&self) -> u32 {
        self.0
    }
}

impl AttemptNo {
    /// The first attempt of a job.
    #[must_use]
    pub fn first() -> (n: Self)
        ensures
            n@ == 1,
    {
        AttemptNo(1)
    }

    /// The value of the counter.
    #[must_use]
    pub fn get(self) -> (v: u32)
        ensures
            v == self@,
    {
        self.0
    }

    /// Reconstructs an attempt number from a persisted value, the inverse of
    /// [`AttemptNo::get`].
    #[must_use]
    pub fn from_persisted(value: u32) -> (n: Self)
        ensures
            n@ == value,
    {
        AttemptNo(value)
    }

    /// The next attempt number. A counter that is exhausted has none:
    /// saturating would let two consecutive attempts share a number.
    #[must_use]
    pub fn next(self) -> (n: Self)
        requires
            self@ < u32::MAX,
        ensures
            n@ == self@ + 1,
    {
        AttemptNo(self.0.checked_add(1).expect("AttemptNo overflow: monotonic invariant violated"))
    }

    /// The number as shown to a reader, in decimal.
    #[must_use]
    pub fn to_string(&self) -> (s: String)
        ensures
            s@ == decimal(self@ as nat),
    {
        unsigned(self.0 as u64)
    }
}

/// A persisted value and its token determine each other: two tokens with one
/// value are the same token, for fences and for attempt numbers.
pub proof fn tokens_are_their_values(f: FenceToken, g: FenceToken, m: AttemptNo, n: AttemptNo)
    ensures
        f@ == g@ <==> f == g,
        m@ == n@ <==> m == n,
{
}

/// Attempts count up from one: the first is number one, the next is one more, and no two
/// consecutive ones share a number. A persisted number reads back, and so does a fence.
pub proof fn attempts_count_up_from_one(
    first: AttemptNo,
    n: AttemptNo,
    next: AttemptNo,
    value: u32,
    read: AttemptNo,
    fence: FenceToken,
    fence_value: u64,
    fence_read: FenceToken,
)
    requires
        n@ < u32::MAX,
        call_ensures(AttemptNo::first, (), first),
        call_ensures(AttemptNo::next, (n,), next),
        call_ensures(AttemptNo::get, (n,), value),
        call_ensures(AttemptNo::from_persisted, (value,), read),
        call_ensures(FenceToken::value, (fence,), fence_value),
        call_ensures(FenceToken::from_persisted, (fence_value,), fence_read),
    ensures
        first@ == 1,
        next@ == n@ + 1,
        read == n,
        fence_read == fence,
{
}

} // verus!
