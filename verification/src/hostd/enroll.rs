//! Client-side enrollment: the token-only handshake.
//!
//! The first connection presents a single-use token and a locally generated signing
//! request, and sends nothing else. A bad or spent token is terminal and never
//! retried; a connect failure or a drop is retried with the reconnect backoff.
//!
//! One attempt is a [`Handshake`]; the attempts are counted by a [`Retry`]. The
//! caller connects, sends, receives and sleeps.
use crate::decimal::decimal;
use crate::decimal::unsigned;
use crate::duration::Duration;
use crate::hostd::clock::FixedClock;
use crate::hostd::clock::WallClock;
use crate::hostd::config::HostdConfig;
use crate::hostd::connect::drawn;
use crate::hostd::connect::BackoffPolicy;
use crate::hostd::connect::Jitter;
use crate::hostd::connect::draws_stay_within_the_ceiling;
use crate::hostd::connect::mixed;
use crate::hostd::identity::placeholder_csr;
use crate::hostd::identity::placeholder_key;
use crate::hostd::identity::CsrProvider;
use crate::hostd::identity::EnrolledNode;
use crate::hostd::identity::KeyMaterial;
use crate::hostd::identity::KeystoreError;
use crate::hostd::identity::PlaceholderCsr;
use crate::hostd::transport::TransportError;
use crate::hostd::wire::envelope;
use crate::hostd::wire::minted;
use crate::hostd::wire::msg_id;
use crate::hostd::wire::msg_ids_are_ordered_as_minted;
use crate::hostd::wire::supported_versions;
use crate::hostd::wire::MsgIdGen;
use crate::hostd::wire::PROTOCOL_VERSION;
use crate::proto::codec::Channel;
use crate::proto::v1::AgentConfig;
use crate::proto::v1::Backend;
use crate::proto::v1::BenchmarkFingerprint;
use crate::proto::v1::Body;
use crate::proto::v1::EnrollGrant;
use crate::proto::v1::EnrollRequest;
use crate::proto::v1::Envelope;
use crate::proto::v1::HardwareInventory;
use crate::proto::v1::MemoryModel;
use crate::proto::v1::VersionRange;
use crate::text::labelled;
use crate::text::text_less;
use vstd::prelude::*;

verus! {

/// Attempts that an agent makes before it gives up.
pub const MAX_ENROLL_ATTEMPTS: u32 = 8;

/// Errors from the enrollment handshake.
#[derive(Debug)]
pub enum EnrollError {
    /// The gateway rejected enrollment. Terminal: it is surfaced, not retried.
    Rejected(String),
    /// A transient transport failure: back off and reconnect.
    Transport(TransportError),
    /// The gateway sent something other than a grant.
    Unexpected(String),
    /// Local key or request generation failed. Terminal: a retry cannot fix it.
    Csr(KeystoreError),
    /// Every attempt of the budget failed transiently.
    Exhausted(u32),
}

impl EnrollError {
    /// Whether a text is what the failure says of itself.
    pub open spec fn is_shown_as(self, text: Seq<char>) -> bool {
        match self {
            EnrollError::Rejected(reason) => text == "enrollment rejected (terminal): "@ + reason@,
            EnrollError::Transport(e) => exists|inner: Seq<char>| #[trigger]
                e.is_shown_as(inner) && text == "transport: "@ + inner,
            EnrollError::Unexpected(what) => text == "unexpected message during enrollment: "@
                + what@,
            EnrollError::Csr(e) => text == "csr generation: "@ + e.message(),
            EnrollError::Exhausted(n) => text == "exhausted "@ + decimal(n as nat)
                + " enrollment attempts"@,
        }
    }

    /// What the failure says of itself.
    pub fn to_string(&self) -> (s: String)
        ensures
            self.is_shown_as(s@),
    {
        match self {
            EnrollError::Rejected(reason) => labelled(
                "enrollment rejected (terminal): ",
                reason.as_str(),
            ),
            EnrollError::Transport(e) => {
                let inner = e.to_string();
                proof {
                    assert(e.is_shown_as(inner@));
                }
                labelled("transport: ", inner.as_str())
            },
            EnrollError::Unexpected(what) => labelled(
                "unexpected message during enrollment: ",
                what.as_str(),
            ),
            EnrollError::Csr(e) => labelled("csr generation: ", e.to_string().as_str()),
            EnrollError::Exhausted(n) => {
                let mut s = labelled("exhausted ", unsigned(*n as u64).as_str());
                s.append(" enrollment attempts");
                s
            },
        }
    }
}

impl EnrollError {
    /// Whether to back off and try again, as opposed to giving up now.
    #[must_use]
    pub fn is_transient(&self) -> (r: bool)
        ensures
            r == (*self is Transport),
    {
        matches!(self, EnrollError::Transport(_))
    }
}

/// The hardware that the agent advertises at enrollment. The default is a CPU node
/// without a GPU.
#[derive(Debug, Clone, PartialEq, Eq)]
pub struct NodeProfile {
    /// Advertised accelerator model, or empty for a CPU-only node.
    pub gpu_model: String,
    /// Backends the node can run.
    pub backends: Vec<Backend>,
    /// How the node's memory is organized.
    pub memory_model: MemoryModel,
    /// Unified-memory pool size in MB (0 for a discrete or CPU node).
    pub unified_memory_mb: u64,
}

impl Default for NodeProfile {
    fn default() -> (p: Self)
        ensures
            p.gpu_model@ == Seq::<char>::empty(),
            p.backends@ == seq![Backend::Cpu],
            p.memory_model == MemoryModel::Unspecified,
            p.unified_memory_mb == 0,
    {
        let mut backends: Vec<Backend> = Vec::new();
        backends.push(Backend::Cpu);
        proof {
            assert(backends@ =~= seq![Backend::Cpu]);
        }
        NodeProfile {
            gpu_model: String::new(),
            backends,
            memory_model: MemoryModel::Unspecified,
            unified_memory_mb: 0,
        }
    }
}

impl NodeProfile {
    /// Whether an inventory advertises this profile, and no dedicated memory.
    pub open spec fn advertised_by(self, hw: HardwareInventory) -> bool {
        &&& hw.gpu_model@ == self.gpu_model@
        &&& hw.backends@ == self.backends@
        &&& hw.memory_model == self.memory_model
        &&& hw.unified_memory_mb == self.unified_memory_mb
        &&& hw.vram_mb == 0
    }

    /// The inventory that advertises this profile.
    #[must_use]
    pub fn inventory(&self) -> (hw: HardwareInventory)
        ensures
            self.advertised_by(hw),
    {
        let mut backends: Vec<Backend> = Vec::new();
        let mut i: usize = 0;
        while i < self.backends.len()
            invariant
                i <= self.backends@.len(),
                backends@ == self.backends@.take(i as int),
            decreases self.backends@.len() - i,
        {
            backends.push(self.backends[i]);
            proof {
                assert(self.backends@.take(i + 1) =~= self.backends@.take(i as int).push(
                    self.backends@[i as int],
                ));
            }
            i = i + 1;
        }
        proof {
            assert(self.backends@.take(self.backends@.len() as int) =~= self.backends@);
        }
        HardwareInventory {
            gpu_model: self.gpu_model.clone(),
            vram_mb: 0,
            backends,
            memory_model: self.memory_model,
            unified_memory_mb: self.unified_memory_mb,
        }
    }
}

/// The inputs to one node's enrollment.
#[derive(Debug, Clone, PartialEq, Eq)]
pub struct EnrollmentRequest {
    /// Single-use token minted when the owner linked the machine.
    pub token: String,
    /// Advisory nonce of the signing request's subject.
    pub subject_nonce: String,
    /// Advertised hardware profile.
    pub profile: NodeProfile,
}

/// A completed enrollment: the durable node identity plus the granted configuration.
#[derive(Clone)]
pub struct Enrollment {
    /// The identity to persist and present on later connections.
    pub node: EnrolledNode,
    /// Configuration pushed by the control plane, if any.
    pub config: Option<AgentConfig>,
    /// The mutually chosen schema major.
    pub chosen_version: u32,
}

/// Whether a wire request is the one for these inputs and a signing request: the
/// token, the signing request and the profile, and nothing of the private key.
pub open spec fn requests(
    wire: EnrollRequest,
    request: EnrollmentRequest,
    csr_der: Seq<u8>,
) -> bool {
    &&& wire.enroll_token@ == request.token@
    &&& wire.csr_der@ == csr_der
    &&& wire.hw is Some
    &&& request.profile.advertised_by(wire.hw->0)
    &&& wire.bench is Some
    &&& wire.nat is None
    &&& wire.supported_versions == Some(
        VersionRange { min: PROTOCOL_VERSION, max: PROTOCOL_VERSION },
    )
}

/// Whether an envelope opens the handshake: it carries the request under the given
/// message number and answers nothing.
pub open spec fn opens(
    e: Envelope,
    request: EnrollmentRequest,
    csr_der: Seq<u8>,
    number: u64,
    now_ms: i64,
) -> bool {
    &&& e.protocol_version == PROTOCOL_VERSION
    &&& e.msg_id@ == msg_id(number as nat)
    &&& e.correlation_id@ == Seq::<char>::empty()
    &&& e.timestamp_ms == now_ms
    &&& e.body is Some
    &&& e.body->0 is EnrollRequest
    &&& requests(e.body->0->EnrollRequest_0, request, csr_der)
}

/// Whether an enrollment combines a grant with a private key.
pub open spec fn completes(e: Enrollment, grant: EnrollGrant, private_key_der: Seq<u8>) -> bool {
    &&& e.node.agent_id == grant.agent_id
    &&& e.node.node_cert_der == grant.node_cert_der
    &&& e.node.ca_chain_der == grant.ca_chain_der
    &&& e.node.private_key_der@ == private_key_der
    &&& e.config == grant.config
    &&& e.chosen_version == grant.chosen_version
}

/// What a reply makes of a handshake: a grant completes it, a close with a reason
/// rejects it, any other failure is transient, and anything else is unexpected.
pub open spec fn concludes(
    reply: Result<(Channel, Envelope), TransportError>,
    private_key_der: Seq<u8>,
    r: Result<Enrollment, EnrollError>,
) -> bool {
    match (reply, r) {
        (Ok((_, envelope)), Ok(e)) => {
            &&& envelope.body is Some
            &&& envelope.body->0 is EnrollGrant
            &&& completes(e, envelope.body->0->EnrollGrant_0, private_key_der)
        },
        (Ok((_, envelope)), Err(EnrollError::Unexpected(text))) => {
            ||| envelope.body is None && text@ == "empty envelope"@
            ||| envelope.body is Some && envelope.body->0 !is EnrollGrant && described(
                envelope.body->0,
                text@,
            )
        },
        (Err(e), Err(EnrollError::Rejected(reason))) => e == (TransportError::Closed {
            reason: Some(reason),
        }),
        (Err(e), Err(EnrollError::Transport(f))) => {
            &&& e == f
            &&& !(e is Closed && e->reason is Some)
        },
        _ => false,
    }
}

/// Whether a text is a debug rendering of a message body.
pub closed spec fn described(body: Body, text: Seq<char>) -> bool {
    exists|s: String| s@ == text && #[trigger] call_ensures(describe, (&body,), s)
}

/// The debug rendering of a message body (`format!` with `{:?}`). The form of debug
/// output is not promised by anyone, so nothing is claimed of the text.
#[verifier::external_body]
fn describe(body: &Body) -> (s: String) {
    format!("{body:?}")
}

/// Drives the client side of enrollment for one node: the key and clock seams, and
/// the inputs.
pub struct Enroller<'a, P, C> {
    /// Produces the key pair and the signing request.
    pub csr: &'a P,
    /// Advisory wall clock for the envelope's timestamp.
    pub clock: &'a C,
    /// The enrollment inputs.
    pub request: EnrollmentRequest,
}

/// One attempt whose request is out: the private key that the grant is awaited for.
pub struct Handshake {
    private_key_der: Vec<u8>,
}

impl View for Handshake {
    type V = Seq<u8>;

    closed spec fn view(&self) -> Seq<u8> {
        self.private_key_der@
    }
}

impl EnrollmentRequest {
    /// The inputs that a configuration gives: its token, and its agent name, or
    /// `loom-hostd` where it has none, as the nonce of a default node.
    #[must_use]
    pub fn for_config(config: &HostdConfig) -> (r: Self)
        ensures
            r.token@ == config.enroll_token@,
            r.subject_nonce@ == (match config.agent_name {
                Some(name) => name@,
                None => "loom-hostd"@,
            }),
            r.profile.gpu_model@ == Seq::<char>::empty(),
            r.profile.backends@ == seq![Backend::Cpu],
            r.profile.memory_model == MemoryModel::Unspecified,
            r.profile.unified_memory_mb == 0,
    {
        EnrollmentRequest {
            token: config.enroll_token.clone(),
            subject_nonce: match &config.agent_name {
                Some(name) => name.clone(),
                None => "loom-hostd".to_owned(),
            },
            profile: NodeProfile::default(),
        }
    }

    /// The wire request for a signing request: the token, the signing request and the
    /// profile. The private key is no part of it.
    #[must_use]
    pub fn on_wire(&self, csr_der: Vec<u8>) -> (wire: EnrollRequest)
        ensures
            requests(wire, *self, csr_der@),
    {
        EnrollRequest {
            enroll_token: self.token.clone(),
            csr_der,
            hw: Some(self.profile.inventory()),
            bench: Some(BenchmarkFingerprint {  }),
            nat: None,
            supported_versions: Some(supported_versions()),
        }
    }

    /// Opens one attempt with what key generation gave: the envelope to send on the
    /// control channel, and the handshake that awaits its reply.
    ///
    /// # Errors
    /// [`EnrollError::Csr`] if key generation failed.
    pub fn begin(
        &self,
        key: Result<KeyMaterial, KeystoreError>,
        ids: &mut MsgIdGen,
        now_ms: i64,
    ) -> (r: Result<(Envelope, Handshake), EnrollError>)
        ensures
            begun(*self, key, old(ids)@, now_ms, r),
            spent(old(ids)@, key is Ok, final(ids)@),
    {
        match key {
            Ok(key) => {
                let wire = self.on_wire(key.csr_der);
                let e = envelope(ids.next_id(), String::new(), now_ms, Body::EnrollRequest(wire));
                Ok((e, Handshake { private_key_der: key.private_key_der }))
            },
            Err(e) => Err(EnrollError::Csr(e)),
        }
    }
}

/// Whether the message numbers go from `before` to `after` by an attempt: one is spent by
/// an attempt that opens, none by one that does not.
pub open spec fn spent(before: u64, opened: bool, after: u64) -> bool {
    after == (if opened {
        before.wrapping_add(1)
    } else {
        before
    })
}

/// What an attempt opens with: the request under the given message number where key
/// generation gave key material, else its failure.
pub open spec fn begun(
    request: EnrollmentRequest,
    key: Result<KeyMaterial, KeystoreError>,
    number: u64,
    now_ms: i64,
    r: Result<(Envelope, Handshake), EnrollError>,
) -> bool {
    match (key, r) {
        (Ok(k), Ok((e, h))) => {
            &&& opens(e, request, k.csr_der@, number, now_ms)
            &&& h@ == k.private_key_der@
        },
        (Err(e), Err(EnrollError::Csr(f))) => e == f,
        _ => false,
    }
}

/// Whether a key seam may give this key material for a nonce.
pub open spec fn generated<P: CsrProvider>(
    csr: &P,
    nonce: Seq<char>,
    key: Result<KeyMaterial, KeystoreError>,
) -> bool {
    exists|text: &str|
        text@ == nonce && #[trigger] call_ensures(P::generate, (csr, text), key)
}

/// Whether an attempt opened as [`begun`] says, with key material that the key seam
/// gave for the request's nonce and a time that the clock gave.
pub open spec fn opened<P: CsrProvider, C: WallClock>(
    csr: &P,
    clock: &C,
    request: EnrollmentRequest,
    number: u64,
    r: Result<(Envelope, Handshake), EnrollError>,
) -> bool {
    exists|key: Result<KeyMaterial, KeystoreError>, now_ms: i64|
        #![trigger begun(request, key, number, now_ms, r)]
        {
            &&& generated(csr, request.subject_nonce@, key)
            &&& key is Ok ==> call_ensures(C::now_unix_ms, (clock,), now_ms)
            &&& begun(request, key, number, now_ms, r)
        }
}

impl<'a, P: CsrProvider, C: WallClock> Enroller<'a, P, C> {
    /// Opens one attempt: generates the key material for the request's nonce, and
    /// builds the envelope to send on the control channel and the handshake that
    /// awaits its reply.
    ///
    /// # Errors
    /// [`EnrollError::Csr`] if key generation fails.
    pub fn enroll_once(&self, ids: &mut MsgIdGen) -> (r: Result<
        (Envelope, Handshake),
        EnrollError,
    >)
        ensures
            opened(self.csr, self.clock, self.request, old(ids)@, r),
            spent(old(ids)@, r is Ok, final(ids)@),
    {
        let nonce = self.request.subject_nonce.as_str();
        let key = self.csr.generate(nonce);
        proof {
            assert(generated(self.csr, self.request.subject_nonce@, key));
        }
        if key.is_err() {
            return self.request.begin(key, ids, 0);
        }
        let now_ms: i64 = self.clock.now_unix_ms();
        self.request.begin(key, ids, now_ms)
    }
}

impl Handshake {
    /// Takes what came of sending the request: a failure is transient.
    ///
    /// # Errors
    /// [`EnrollError::Transport`] if the send failed.
    pub fn on_sent(&self, outcome: Result<(), TransportError>) -> (r: Result<(), EnrollError>)
        ensures
            match (outcome, r) {
                (Ok(_), Ok(_)) => true,
                (Err(e), Err(EnrollError::Transport(f))) => e == f,
                _ => false,
            },
    {
        match outcome {
            Ok(_) => Ok(()),
            Err(e) => Err(EnrollError::Transport(e)),
        }
    }

    /// Takes the reply, which ends the attempt.
    ///
    /// # Errors
    /// - [`EnrollError::Rejected`] on a close with a reason, which is terminal.
    /// - [`EnrollError::Transport`] on any other transport failure.
    /// - [`EnrollError::Unexpected`] if the reply is not a grant.
    pub fn on_reply(self, reply: Result<(Channel, Envelope), TransportError>) -> (r: Result<
        Enrollment,
        EnrollError,
    >)
        ensures
            concludes(reply, self@, r),
    {
        match reply {
            Err(TransportError::Closed { reason: Some(reason) }) => Err(
                EnrollError::Rejected(reason),
            ),
            Err(other) => Err(EnrollError::Transport(other)),
            Ok((_, envelope)) => match envelope.body {
                Some(Body::EnrollGrant(grant)) => Ok(
                    finish_enrollment(grant, self.private_key_der),
                ),
                Some(other) => {
                    let text = describe(&other);
                    proof {
                        assert(described(other, text@));
                    }
                    Err(EnrollError::Unexpected(text))
                },
                None => Err(EnrollError::Unexpected("empty envelope".to_owned())),
            },
        }
    }
}

/// Combines the granted certificate with the locally held private key.
fn finish_enrollment(grant: EnrollGrant, private_key_der: Vec<u8>) -> (e: Enrollment)
    ensures
        completes(e, grant, private_key_der@),
{
    Enrollment {
        node: EnrolledNode {
            agent_id: grant.agent_id,
            node_cert_der: grant.node_cert_der,
            ca_chain_der: grant.ca_chain_der,
            private_key_der,
        },
        config: grant.config,
        chosen_version: grant.chosen_version,
    }
}

/// What to do after an attempt.
pub enum RetryStep {
    /// Sleep this long, then go on.
    Sleep(Duration),
    /// Enrollment is over, well or not.
    Done(Result<Enrollment, EnrollError>),
}

/// The attempts of an enrollment: how many were made, how many may be, and how long
/// to wait between them.
pub struct Retry {
    backoff: BackoffPolicy,
    jitter: Jitter,
    attempt: u32,
    max_attempts: u32,
}

/// Where the attempts stand, as values.
pub struct RetryView {
    /// The backoff bounds.
    pub backoff: BackoffPolicy,
    /// The state of the jitter.
    pub jitter: u64,
    /// Attempts that failed so far.
    pub attempt: u32,
    /// Attempts that may be made.
    pub max_attempts: u32,
}

impl View for Retry {
    type V = RetryView;

    closed spec fn view(&self) -> RetryView {
        RetryView {
            backoff: self.backoff,
            jitter: self.jitter@,
            attempt: self.attempt,
            max_attempts: self.max_attempts,
        }
    }
}

/// What the outcome of an attempt makes of the attempts: a transient failure counts and
/// is slept off, under the ceiling of the attempt; success and any other failure end
/// enrollment at once.
pub open spec fn retried(
    before: RetryView,
    outcome: Result<Enrollment, EnrollError>,
    after: RetryView,
    step: RetryStep,
) -> bool {
    match (outcome, step) {
        (Err(EnrollError::Transport(_)), RetryStep::Sleep(d)) => {
            &&& drawn(
                before.backoff.ceiling_nanos(before.attempt),
                before.jitter,
                after.jitter,
                d@,
            )
            &&& d@ <= before.backoff.ceiling_nanos(before.attempt)
            &&& after == (RetryView {
                attempt: (before.attempt + 1) as u32,
                jitter: after.jitter,
                ..before
            })
        },
        (outcome, RetryStep::Done(result)) => {
            &&& !(outcome is Err && outcome->Err_0 is Transport)
            &&& result == outcome
            &&& after == before
        },
        _ => false,
    }
}

impl Retry {
    /// No attempt made yet.
    #[must_use]
    pub fn new(backoff: BackoffPolicy, jitter_seed: u64, max_attempts: u32) -> (r: Self)
        ensures
            r@ == (RetryView { backoff, jitter: jitter_seed, attempt: 0, max_attempts }),
    {
        Retry { backoff, jitter: Jitter::new(jitter_seed), attempt: 0, max_attempts }
    }

    /// Whether the budget is used up, and if so how enrollment ends.
    #[must_use]
    pub fn exhausted(&self) -> (r: Option<EnrollError>)
        ensures
            r == (if self@.attempt >= self@.max_attempts {
                Some(EnrollError::Exhausted(self@.max_attempts))
            } else {
                None
            }),
    {
        if self.attempt >= self.max_attempts {
            Some(EnrollError::Exhausted(self.max_attempts))
        } else {
            None
        }
    }

    /// Takes the outcome of an attempt. A transient failure counts and is slept off,
    /// under the ceiling of the attempt; success and any other failure end
    /// enrollment at once.
    #[must_use]
    pub fn on_outcome(&mut self, outcome: Result<Enrollment, EnrollError>) -> (step: RetryStep)
        requires
            outcome is Err && outcome->Err_0 is Transport ==> old(self)@.attempt
                < old(self)@.max_attempts,
        ensures
            retried(old(self)@, outcome, final(self)@, step),
    {
        match outcome {
            Err(EnrollError::Transport(_)) => {
                let d = self.backoff.delay(self.attempt, &mut self.jitter);
                self.attempt = self.attempt + 1;
                RetryStep::Sleep(d)
            },
            other => RetryStep::Done(other),
        }
    }
}

/// The private key is never sent: the envelope that opens an attempt with some key
/// material is as well the one for any other with the same signing request.
pub proof fn the_private_key_is_not_sent(
    request: EnrollmentRequest,
    a: KeyMaterial,
    b: KeyMaterial,
    number: u64,
    now_ms: i64,
    e: Envelope,
    h: Handshake,
)
    requires
        begun(request, Ok(a), number, now_ms, Ok((e, h))),
        a.csr_der@ == b.csr_der@,
    ensures
        opens(e, request, b.csr_der@, number, now_ms),
{
}

/// With the placeholder keys every attempt opens, and the envelope carries the
/// placeholder's signing request for the nonce.
pub proof fn the_placeholder_always_opens(
    csr: &PlaceholderCsr,
    clock: &FixedClock,
    request: EnrollmentRequest,
    number: u64,
    r: Result<(Envelope, Handshake), EnrollError>,
)
    requires
        opened(csr, clock, request, number, r),
    ensures
        r is Ok,
        opens(r->Ok_0.0, request, placeholder_csr(request.subject_nonce@), number, clock.0),
        r->Ok_0.1@ == placeholder_key(request.subject_nonce@),
{
}

/// Whether `states` are the states of one enrollment, each after a transient failure
/// of the one before, none of them past the budget.
pub open spec fn failed_run(states: Seq<RetryView>, max_attempts: u32) -> bool {
    &&& states.len() > 0
    &&& states[0].attempt == 0
    &&& states[0].max_attempts == max_attempts
    &&& forall|i: int|
        0 < i < states.len() ==> {
            &&& (#[trigger] states[i - 1]).attempt < states[i - 1].max_attempts
            &&& states[i].attempt == states[i - 1].attempt + 1
            &&& states[i].max_attempts == states[i - 1].max_attempts
        }
}

/// No more attempts fail than the budget allows, and the budget is used up exactly
/// when that many have.
pub proof fn attempts_stay_within_the_budget(states: Seq<RetryView>, max_attempts: u32)
    requires
        failed_run(states, max_attempts),
    ensures
        states.last().attempt == states.len() - 1,
        states.len() - 1 <= max_attempts,
        states.last().max_attempts == max_attempts,
        states.last().attempt >= states.last().max_attempts <==> states.len() - 1 == max_attempts,
    decreases states.len(),
{
    if states.len() > 1 {
        let before = states.drop_last();
        assert forall|i: int| 0 < i < before.len() implies {
            &&& (#[trigger] before[i - 1]).attempt < before[i - 1].max_attempts
            &&& before[i].attempt == before[i - 1].attempt + 1
            &&& before[i].max_attempts == before[i - 1].max_attempts
        } by {
            assert(states[i - 1] == before[i - 1]);
        }
        attempts_stay_within_the_budget(before, max_attempts);
        assert(states[states.len() - 2] == before.last());
    } else {
        assert(states.last() == states[0]);
    }
}

/// A close with a reason is a rejection, which no retry follows.
pub proof fn a_rejection_is_terminal(
    reply: Result<(Channel, Envelope), TransportError>,
    private_key_der: Seq<u8>,
    r: Result<Enrollment, EnrollError>,
)
    requires
        concludes(reply, private_key_der, r),
        reply is Err,
        reply->Err_0 is Closed,
        reply->Err_0->reason is Some,
    ensures
        r is Err,
        r->Err_0 is Rejected,
        r->Err_0 !is Transport,
{
}

/// Each attempt that fails transiently is one more of the budget, and is waited off for
/// no longer than its ceiling; nothing else of the enrollment changes.
pub proof fn a_transient_failure_counts_once(
    before: RetryView,
    e: TransportError,
    after: RetryView,
    step: RetryStep,
)
    requires
        before.attempt < before.max_attempts,
        retried(before, Err(EnrollError::Transport(e)), after, step),
    ensures
        step is Sleep,
        after.attempt == before.attempt + 1,
        after.attempt <= after.max_attempts,
        after.max_attempts == before.max_attempts,
        after.backoff == before.backoff,
        (step->Sleep_0)@ <= before.backoff.ceiling_nanos(before.attempt),
        (step->Sleep_0)@ <= before.backoff.cap_nanos(),
{
}

/// Enrollment ends at once, with just that outcome, on success and on every failure that
/// is not transient; and it ends on no other.
pub proof fn what_is_not_transient_ends_enrollment(
    before: RetryView,
    outcome: Result<Enrollment, EnrollError>,
    after: RetryView,
    step: RetryStep,
    transient: bool,
)
    requires
        retried(before, outcome, after, step),
        outcome is Err ==> call_ensures(
            EnrollError::is_transient,
            (&outcome->Err_0,),
            transient,
        ),
    ensures
        step is Done <==> outcome is Ok || !transient,
        step is Done ==> step->Done_0 == outcome && after == before,
{
}

/// A fresh enrollment may make an attempt unless its budget is none at all, and what it
/// gives up with names the budget.
pub proof fn a_fresh_enrollment_may_try(
    backoff: BackoffPolicy,
    seed: u64,
    max_attempts: u32,
    retry: Retry,
    given_up: Option<EnrollError>,
)
    requires
        call_ensures(Retry::new, (backoff, seed, max_attempts), retry),
        call_ensures(Retry::exhausted, (&retry,), given_up),
    ensures
        given_up is None <==> max_attempts > 0,
        given_up is Some ==> given_up->0 == EnrollError::Exhausted(max_attempts),
        retry@.backoff == backoff,
        retry@.jitter == seed,
{
}

/// The outcome of an attempt follows from the reply. Only a grant enrolls; only a close
/// with a reason is a rejection, and it tells that reason; every other failure of the
/// transport may be tried again; and a reply that is no grant is none of these.
pub proof fn each_reply_has_its_outcome(
    h: Handshake,
    reply: Result<(Channel, Envelope), TransportError>,
    r: Result<Enrollment, EnrollError>,
    transient: bool,
)
    requires
        call_ensures(Handshake::on_reply, (h, reply), r),
        r is Err ==> call_ensures(EnrollError::is_transient, (&r->Err_0,), transient),
    ensures
        r is Ok <==> reply is Ok && (reply->Ok_0).1.body is Some && (reply->Ok_0).1.body->0
            is EnrollGrant,
        (r is Err && r->Err_0 is Rejected) <==> reply is Err && reply->Err_0 is Closed
            && reply->Err_0->reason is Some,
        (r is Err && r->Err_0 is Rejected) ==> Some(r->Err_0->Rejected_0) == reply->Err_0->reason,
        (r is Err && transient) <==> reply is Err && !(reply->Err_0 is Closed
            && reply->Err_0->reason is Some),
        (r is Err && transient) ==> r->Err_0->Transport_0 == reply->Err_0,
        (r is Err && r->Err_0 is Unexpected) <==> reply is Ok && r is Err,
{
}

/// The grant's parts stand apart in the enrollment, and the private key is the one that
/// the handshake was opened with.
pub proof fn an_enrollment_holds_the_grant_and_the_key(
    request: EnrollmentRequest,
    key: KeyMaterial,
    number: u64,
    now_ms: i64,
    e: Envelope,
    h: Handshake,
    channel: Channel,
    answer: Envelope,
    r: Result<Enrollment, EnrollError>,
)
    requires
        begun(request, Ok(key), number, now_ms, Ok((e, h))),
        call_ensures(Handshake::on_reply, (h, Ok((channel, answer))), r),
        r is Ok,
    ensures
        r->Ok_0.node.private_key_der@ == key.private_key_der@,
        ({
            let grant = answer.body->0->EnrollGrant_0;
            &&& r->Ok_0.node.agent_id@ == grant.agent_id@
            &&& r->Ok_0.node.node_cert_der@ == grant.node_cert_der@
            &&& r->Ok_0.node.ca_chain_der@ == grant.ca_chain_der@
            &&& r->Ok_0.chosen_version == grant.chosen_version
            &&& r->Ok_0.config == grant.config
        }),
{
}

/// A request that could not be sent may be tried again, with the failure kept; one that
/// was sent goes on.
pub proof fn a_failed_send_is_transient(
    h: Handshake,
    outcome: Result<(), TransportError>,
    r: Result<(), EnrollError>,
    transient: bool,
)
    requires
        call_ensures(Handshake::on_sent, (&h, outcome), r),
        r is Err ==> call_ensures(EnrollError::is_transient, (&r->Err_0,), transient),
    ensures
        r is Ok <==> outcome is Ok,
        r is Err ==> transient && r->Err_0->Transport_0 == outcome->Err_0,
{
}

/// What an agent says of itself on the wire is what it was asked to: its token, its
/// signing request and its hardware; and it has no memory of its own on the accelerator.
pub proof fn a_request_presents_what_was_given(
    request: EnrollmentRequest,
    csr_der: Vec<u8>,
    wire: EnrollRequest,
)
    requires
        call_ensures(EnrollmentRequest::on_wire, (&request, csr_der), wire),
    ensures
        wire.enroll_token@ == request.token@,
        wire.csr_der@ == csr_der@,
        wire.hw is Some,
        (wire.hw->0).gpu_model@ == request.profile.gpu_model@,
        (wire.hw->0).backends@ == request.profile.backends@,
        (wire.hw->0).memory_model == request.profile.memory_model,
        (wire.hw->0).unified_memory_mb == request.profile.unified_memory_mb,
        (wire.hw->0).vram_mb == 0,
{
}

/// Two requests with different tokens, models or memory are different on the wire.
pub proof fn different_requests_are_told_apart_on_the_wire(
    a: EnrollmentRequest,
    b: EnrollmentRequest,
    csr_a: Vec<u8>,
    csr_b: Vec<u8>,
    x: EnrollRequest,
    y: EnrollRequest,
)
    requires
        call_ensures(EnrollmentRequest::on_wire, (&a, csr_a), x),
        call_ensures(EnrollmentRequest::on_wire, (&b, csr_b), y),
    ensures
        x.enroll_token@ == y.enroll_token@ ==> a.token@ == b.token@,
        x.csr_der@ == y.csr_der@ ==> csr_a@ == csr_b@,
        (x.hw->0).gpu_model@ == (y.hw->0).gpu_model@ ==> a.profile.gpu_model@
            == b.profile.gpu_model@,
        (x.hw->0).unified_memory_mb == (y.hw->0).unified_memory_mb ==> a.profile.unified_memory_mb
            == b.profile.unified_memory_mb,
        (x.hw->0).backends@ == (y.hw->0).backends@ ==> a.profile.backends@ == b.profile.backends@,
{
}

/// A configuration's token and agent name become those of the request, and a name that is
/// not given is no reason for an empty one. The hardware of a configured agent is that of
/// a default node.
pub proof fn a_configuration_names_its_agent(
    config: HostdConfig,
    r: EnrollmentRequest,
    node: NodeProfile,
)
    requires
        call_ensures(EnrollmentRequest::for_config, (&config,), r),
        call_ensures(NodeProfile::default, (), node),
    ensures
        r.token@ == config.enroll_token@,
        config.agent_name is Some ==> r.subject_nonce@ == (config.agent_name->0)@,
        config.agent_name is None ==> r.subject_nonce@.len() > 0,
        r.profile.gpu_model@ == node.gpu_model@,
        r.profile.backends@ == node.backends@,
        r.profile.memory_model == node.memory_model,
        r.profile.unified_memory_mb == node.unified_memory_mb,
        node.backends@.contains(Backend::Cpu),
        node.backends@.len() == 1,
        node.gpu_model@.len() == 0,
{
    reveal_strlit("loom-hostd");
    assert(node.backends@[0] == Backend::Cpu);
}

/// Key material is sent as it was generated, under the number and time of the attempt, as
/// a message that answers none; and a failed generation opens nothing.
pub proof fn an_opening_carries_the_signing_request(
    request: EnrollmentRequest,
    key: Result<KeyMaterial, KeystoreError>,
    number: u64,
    now_ms: i64,
    r: Result<(Envelope, Handshake), EnrollError>,
)
    requires
        begun(request, key, number, now_ms, r),
    ensures
        r is Ok <==> key is Ok,
        key is Err ==> r->Err_0 == EnrollError::Csr(key->Err_0),
        key is Ok ==> ({
            let e = (r->Ok_0).0;
            &&& e.body is Some
            &&& e.body->0 is EnrollRequest
            &&& e.body->0->EnrollRequest_0.csr_der@ == (key->Ok_0).csr_der@
            &&& e.body->0->EnrollRequest_0.enroll_token@ == request.token@
            &&& e.correlation_id@.len() == 0
            &&& e.timestamp_ms == now_ms
            &&& minted(number, e.msg_id@, number.wrapping_add(1))
        }),
{
}

/// Whether the attempts get from one state to the next by a transient failure.
pub open spec fn fails_once(before: RetryView, after: RetryView) -> bool {
    exists|e: TransportError, step: RetryStep|
        #[trigger] retried(before, Err(EnrollError::Transport(e)), after, step)
}

/// The states of an enrollment whose attempts all fail transiently count them, from none
/// at the start.
pub proof fn transient_failures_are_counted(states: Seq<RetryView>, max_attempts: u32)
    requires
        states.len() > 0,
        states[0].attempt == 0,
        states[0].max_attempts == max_attempts,
        forall|i: int|
            0 < i < states.len() ==> {
                &&& (#[trigger] states[i - 1]).attempt < states[i - 1].max_attempts
                &&& fails_once(states[i - 1], states[i])
            },
    ensures
        failed_run(states, max_attempts),
        states.last().attempt == states.len() - 1,
        states.len() - 1 <= max_attempts,
{
    assert forall|i: int| 0 < i < states.len() implies {
        &&& (#[trigger] states[i - 1]).attempt < states[i - 1].max_attempts
        &&& states[i].attempt == states[i - 1].attempt + 1
        &&& states[i].max_attempts == states[i - 1].max_attempts
    } by {
        assert(fails_once(states[i - 1], states[i]));
    }
    attempts_stay_within_the_budget(states, max_attempts);
}

/// Openings on one connection never share an identity: what the next one is sent under is
/// greater than what the last one was; and a failed generation spends no number.
pub proof fn openings_are_sent_under_increasing_identities(
    request: EnrollmentRequest,
    a: KeyMaterial,
    b: KeyMaterial,
    number: u64,
    next: u64,
    unspent: u64,
    now_a: i64,
    now_b: i64,
    first: (Envelope, Handshake),
    second: (Envelope, Handshake),
)
    requires
        number < u64::MAX,
        begun(request, Ok(a), number, now_a, Ok(first)),
        spent(number, true, next),
        begun(request, Ok(b), next, now_b, Ok(second)),
        spent(number, false, unspent),
    ensures
        text_less(first.0.msg_id@, second.0.msg_id@),
        first.0.msg_id@ != second.0.msg_id@,
        unspent == number,
{
    msg_ids_are_ordered_as_minted(number, next);
}

/// A wait spans the whole ceiling of its attempt: a drawn value that is within it, in
/// milliseconds, is waited for as it is.
pub proof fn a_wait_spans_the_ceiling_of_its_attempt(
    before: RetryView,
    e: TransportError,
    after: RetryView,
    d: Duration,
)
    requires
        retried(before, Err(EnrollError::Transport(e)), after, RetryStep::Sleep(d)),
        before.backoff.ceiling_nanos(before.attempt) >= 1_000_000,
        mixed(after.jitter) * 1_000_000 <= before.backoff.ceiling_nanos(before.attempt),
    ensures
        d@ == mixed(after.jitter) * 1_000_000,
        after.jitter != before.jitter,
{
    let ceiling = before.backoff.ceiling_nanos(before.attempt);
    assert(mixed(after.jitter) <= ceiling / 1_000_000);
    draws_stay_within_the_ceiling(ceiling, before.jitter, after.jitter, d@);
}

} // verus!
