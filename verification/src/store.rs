//! The rows that the control plane persists, and how a store fails.
use crate::domain::ids::AccountId;
use crate::domain::ids::GpuId;
use crate::domain::ids::HostId;
use crate::domain::time::Timestamp;
use crate::text::labelled;
use vstd::prelude::*;

verus! {

/// A failure from the store.
#[derive(Debug, Clone, PartialEq, Eq)]
pub enum StoreError {
    /// No such row.
    NotFound,
    /// A uniqueness conflict: the row already exists.
    Conflict(String),
    /// The backend failed. The string is its own message, for logging.
    Backend(String),
}

impl StoreError {
    /// What the failure says of itself.
    pub open spec fn message(self) -> Seq<char> {
        match self {
            StoreError::NotFound => "not found"@,
            StoreError::Conflict(what) => "conflict: "@ + what@,
            StoreError::Backend(why) => "backend: "@ + why@,
        }
    }

    /// What the failure says of itself.
    pub fn to_string(&self) -> (s: String)
        ensures
            s@ == self.message(),
    {
        match self {
            StoreError::NotFound => "not found".to_owned(),
            StoreError::Conflict(what) => labelled("conflict: ", what.as_str()),
            StoreError::Backend(why) => labelled("backend: ", why.as_str()),
        }
    }
}

/// Identifies an outbox row.
#[derive(Debug, Clone, Copy, PartialEq, Eq, Hash, PartialOrd, Ord, Structural)]
pub struct OutboxId(pub i64);

/// An outbox row: an event recorded in the same transaction as the state change
/// that it announces.
#[derive(Debug, Clone, PartialEq, Eq)]
pub struct OutboxEvent {
    /// Row identifier.
    pub id: OutboxId,
    /// The subject to publish under.
    pub topic: String,
    /// The payload to publish.
    pub payload: String,
}

/// A billing account.
#[derive(Debug, Clone, PartialEq, Eq)]
pub struct Account {
    /// Account identifier.
    pub id: AccountId,
    /// Human-facing name.
    pub name: String,
    /// When the account was created.
    pub created_at: Timestamp,
}

/// An API key, of which only the hash is kept.
#[derive(Debug, Clone, PartialEq, Eq)]
pub struct ApiKey {
    /// Key identifier.
    pub id: String,
    /// The account that the key acts for.
    pub account: AccountId,
    /// Hash of the bearer token.
    pub key_hash: String,
    /// Human-facing label.
    pub label: String,
    /// When the key was created.
    pub created_at: Timestamp,
    /// Whether the key has been revoked.
    pub revoked: bool,
}

/// Lifecycle status of a host.
#[derive(Debug, Clone, Copy, PartialEq, Eq, Hash, Structural)]
pub enum HostStatus {
    /// Holds a signed certificate, not yet seen online.
    Enrolled,
    /// Connected.
    Online,
    /// Not connected.
    Offline,
}

/// An enrolled host machine.
#[derive(Debug, Clone, PartialEq, Eq)]
pub struct Host {
    /// Host identifier.
    pub id: HostId,
    /// The account that the host belongs to.
    pub account: AccountId,
    /// The certificate that carries the agent's public key.
    pub agent_pubkey: Vec<u8>,
    /// Current status.
    pub status: HostStatus,
    /// When the host enrolled.
    pub enrolled_at: Timestamp,
    /// When the host was last seen, if ever.
    pub last_seen_at: Option<Timestamp>,
}

/// A GPU that a host advertises.
#[derive(Debug, Clone, PartialEq, Eq)]
pub struct Gpu {
    /// GPU identifier.
    pub id: GpuId,
    /// The host it sits in.
    pub host: HostId,
    /// Model name.
    pub model: String,
    /// Memory in MB.
    pub memory_mb: u64,
    /// Benchmark fingerprint, if measured.
    pub fingerprint: Option<String>,
}

} // verus!
