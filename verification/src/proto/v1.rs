//! The messages of the agent protocol, as the values that the agent and the
//! gateway read and write. Their serialized form belongs to the wire schema.
use vstd::prelude::*;

verus! {

/// A compute backend as advertised on the wire.
#[derive(Debug, Clone, Copy, PartialEq, Eq, Hash, Structural)]
pub enum Backend {
    /// Not stated.
    Unspecified,
    /// Apple silicon, Metal via unified memory.
    Mlx,
    /// NVIDIA CUDA.
    Cuda,
    /// The CPU baseline.
    Cpu,
    /// AMD `ROCm`.
    Rocm,
}

/// How a node's memory is organized, as advertised on the wire.
#[derive(Debug, Clone, Copy, PartialEq, Eq, Hash, Structural)]
pub enum MemoryModel {
    /// Not stated.
    Unspecified,
    /// One pool shared by CPU and GPU.
    Unified,
    /// A fixed VRAM size distinct from host RAM.
    Discrete,
}

impl Default for MemoryModel {
    fn default() -> (m: Self)
        ensures
            m == MemoryModel::Unspecified,
    {
        MemoryModel::Unspecified
    }
}

/// A range of schema majors, both ends included.
#[derive(Debug, Clone, Copy, PartialEq, Eq, Structural)]
pub struct VersionRange {
    /// The lowest supported major.
    pub min: u32,
    /// The highest supported major.
    pub max: u32,
}

/// The hardware that a node advertises.
#[derive(Debug, Clone, PartialEq, Eq, Default)]
pub struct HardwareInventory {
    /// Accelerator model, or empty for a CPU-only node.
    pub gpu_model: String,
    /// Dedicated GPU memory in MB (0 for a unified or CPU node).
    pub vram_mb: u64,
    /// Backends the node can run.
    pub backends: Vec<Backend>,
    /// How the node's memory is organized.
    pub memory_model: MemoryModel,
    /// Unified-memory pool size in MB (0 for a discrete or CPU node).
    pub unified_memory_mb: u64,
}

/// Configuration that the control plane pushes to an agent. Values are upper
/// bounds: a push can tighten but never widen an owner cap.
#[derive(Debug, PartialEq, Eq, Default)]
pub struct AgentConfig {
    /// Heartbeat cadence, milliseconds.
    pub heartbeat_interval_ms: u32,
    /// Durable-spool cap in bytes.
    pub spool_cap_bytes: u64,
    /// Endpoint to reconnect to, or empty to keep the current one.
    pub control_endpoint: String,
    /// Isolation tiers the control plane chose.
    pub chosen_tiers: Vec<String>,
    /// Version of this configuration.
    pub config_version: String,
}

impl AgentConfig {
    /// Whether two configurations agree in every field.
    pub open spec fn same_as(self, other: AgentConfig) -> bool {
        &&& self.heartbeat_interval_ms == other.heartbeat_interval_ms
        &&& self.spool_cap_bytes == other.spool_cap_bytes
        &&& self.control_endpoint@ == other.control_endpoint@
        &&& crate::text::texts(self.chosen_tiers@) == crate::text::texts(other.chosen_tiers@)
        &&& self.config_version@ == other.config_version@
    }
}

impl Clone for AgentConfig {
    fn clone(&self) -> (c: Self)
        ensures
            c.same_as(*self),
    {
        let mut chosen_tiers: Vec<String> = Vec::new();
        let mut i: usize = 0;
        while i < self.chosen_tiers.len()
            invariant
                i <= self.chosen_tiers@.len(),
                chosen_tiers@ == self.chosen_tiers@.take(i as int),
            decreases self.chosen_tiers@.len() - i,
        {
            chosen_tiers.push(self.chosen_tiers[i].clone());
            proof {
                assert(self.chosen_tiers@.take(i + 1) =~= self.chosen_tiers@.take(i as int).push(
                    self.chosen_tiers@[i as int],
                ));
            }
            i = i + 1;
        }
        proof {
            assert(self.chosen_tiers@.take(self.chosen_tiers@.len() as int)
                =~= self.chosen_tiers@);
        }
        AgentConfig {
            heartbeat_interval_ms: self.heartbeat_interval_ms,
            spool_cap_bytes: self.spool_cap_bytes,
            control_endpoint: self.control_endpoint.clone(),
            chosen_tiers,
            config_version: self.config_version.clone(),
        }
    }
}

/// A node's benchmark fingerprint.
#[derive(Debug, Clone, Copy, PartialEq, Eq, Default)]
pub struct BenchmarkFingerprint {}

/// What a node knows of its network address translation.
#[derive(Debug, Clone, Copy, PartialEq, Eq, Default)]
pub struct NatReport {}

/// Agent to gateway: presence and health.
#[derive(Debug, Clone, Copy, PartialEq, Eq, Default)]
pub struct Heartbeat {}

/// Agent to gateway: full state resync after a reconnect.
#[derive(Debug, Clone, Copy, PartialEq, Eq, Default)]
pub struct StateReport {}

/// Gateway to agent: enroll again.
#[derive(Debug, Clone, Copy, PartialEq, Eq, Default)]
pub struct ReEnroll {}

/// Certificate rotation.
#[derive(Debug, Clone, Copy, PartialEq, Eq, Default)]
pub struct RotateCert {}

/// Gateway to agent: a job offer.
#[derive(Debug, Clone, Copy, PartialEq, Eq, Default)]
pub struct JobOffer {}

/// Gateway to agent: stop an attempt.
#[derive(Debug, Clone, Copy, PartialEq, Eq, Default)]
pub struct JobAbort {}

/// Agent to gateway: a job offer is accepted.
#[derive(Debug, Clone, PartialEq, Eq, Default)]
pub struct JobAccept {
    /// The attempt this concerns.
    pub attempt_id: String,
}

/// Agent to gateway: a job offer is rejected.
#[derive(Debug, Clone, PartialEq, Eq, Default)]
pub struct JobReject {
    /// The attempt this concerns.
    pub attempt_id: String,
}

/// Agent to gateway: image or weights preparation progress.
#[derive(Debug, Clone, PartialEq, Eq, Default)]
pub struct JobPrepareProgress {
    /// The attempt this concerns.
    pub attempt_id: String,
}

/// Agent to gateway: the workload started running.
#[derive(Debug, Clone, PartialEq, Eq, Default)]
pub struct JobStarted {
    /// The attempt this concerns.
    pub attempt_id: String,
}

/// Agent to gateway: the attempt failed.
#[derive(Debug, Clone, PartialEq, Eq, Default)]
pub struct JobFailed {
    /// The attempt this concerns.
    pub attempt_id: String,
}

/// Agent to gateway: a workload log chunk.
#[derive(Debug, Clone, PartialEq, Eq, Default)]
pub struct LogChunk {
    /// The attempt this concerns.
    pub attempt_id: String,
}

/// Agent to gateway: the attempt completed.
#[derive(Debug, Clone, PartialEq, Eq, Default)]
pub struct JobCompleted {
    /// The attempt this concerns.
    pub attempt_id: String,
    /// The workload's exit code.
    pub exit_code: i32,
}

/// Agent to gateway: the one message of a token-only connection.
#[derive(Debug, Clone, PartialEq, Eq, Default)]
pub struct EnrollRequest {
    /// Single-use enrollment token.
    pub enroll_token: String,
    /// PKCS#10 certificate signing request, DER-encoded.
    pub csr_der: Vec<u8>,
    /// Advertised hardware.
    pub hw: Option<HardwareInventory>,
    /// Benchmark fingerprint.
    pub bench: Option<BenchmarkFingerprint>,
    /// Network address translation report.
    pub nat: Option<NatReport>,
    /// Schema majors the agent supports.
    pub supported_versions: Option<VersionRange>,
}

/// Gateway to agent: a granted enrollment.
#[derive(Debug, Clone, PartialEq, Eq, Default)]
pub struct EnrollGrant {
    /// The identity that the control plane assigned.
    pub agent_id: String,
    /// The signed node certificate, DER-encoded.
    pub node_cert_der: Vec<u8>,
    /// The trust anchor, DER-encoded.
    pub ca_chain_der: Vec<u8>,
    /// Configuration to apply.
    pub config: Option<AgentConfig>,
    /// The chosen schema major.
    pub chosen_version: u32,
}

/// The message that an envelope carries.
#[derive(Debug, Clone, PartialEq, Eq)]
pub enum Body {
    /// Presence and health.
    Heartbeat(Heartbeat),
    /// State resync.
    StateReport(StateReport),
    /// Offer accepted.
    JobAccept(JobAccept),
    /// Offer rejected.
    JobReject(JobReject),
    /// Preparation progress.
    JobPrepareProgress(JobPrepareProgress),
    /// Workload started.
    JobStarted(JobStarted),
    /// Attempt completed.
    JobCompleted(JobCompleted),
    /// Attempt failed.
    JobFailed(JobFailed),
    /// Log chunk.
    LogChunk(LogChunk),
    /// Enrollment request.
    EnrollRequest(EnrollRequest),
    /// Enrollment grant.
    EnrollGrant(EnrollGrant),
    /// Enroll again.
    ReEnroll(ReEnroll),
    /// Certificate rotation.
    RotateCert(RotateCert),
    /// Job offer.
    JobOffer(JobOffer),
    /// Job abort.
    JobAbort(JobAbort),
}

/// One wire message: the frozen header plus an optional body.
#[derive(Debug, Clone, PartialEq, Eq)]
pub struct Envelope {
    /// Schema major.
    pub protocol_version: u32,
    /// Identity of the message, unique per sender per connection.
    pub msg_id: String,
    /// The message this answers, or empty.
    pub correlation_id: String,
    /// Advisory wall-clock stamp, Unix milliseconds.
    pub timestamp_ms: i64,
    /// The message itself.
    pub body: Option<Body>,
}

} // verus!
