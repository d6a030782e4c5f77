//! Enrollment: verify the token, issue a node certificate, say what to record.
//!
//! A joining agent connects token-only and sends one request with its enrollment
//! token and a signing request. The token is verified first: a forged one never
//! reaches signing or the store. What the store is to hold comes back with the
//! grant, for the caller to persist before it answers.
use crate::agentproto::bootstrap::ca::certificate_der_of;
use crate::agentproto::bootstrap::ca::csr_der_accepted;
use crate::agentproto::bootstrap::ca::undecodable_saying;
use crate::agentproto::bootstrap::error::BootstrapError;
use crate::agentproto::bootstrap::token::prefixed;
use crate::agentproto::bootstrap::token::token_claims;
use crate::agentproto::bootstrap::Bootstrap;
use crate::domain::ids::AccountId;
use crate::domain::ids::GpuId;
use crate::domain::ids::HostId;
use crate::domain::time::Timestamp;
use crate::hexadecimal::hex_text;
use crate::proto::v1::AgentConfig;
use crate::proto::v1::EnrollGrant;
use crate::proto::v1::EnrollRequest;
use crate::random::drawn;
use crate::random::random_bytes;
use crate::random::unavailable_saying;
use crate::store::Gpu;
use crate::store::Host;
use crate::store::HostStatus;
use crate::store::StoreError;
use crate::text::labelled;
use vstd::prelude::*;
use vstd::utf8::encode_utf8;

verus! {

/// The protocol schema major that the gateway speaks.
pub const CHOSEN_VERSION: u32 = 1;

/// Default heartbeat cadence pushed in a grant.
pub const DEFAULT_HEARTBEAT_INTERVAL_MS: u32 = 15_000;

/// Default durable-spool cap pushed in a grant.
pub const DEFAULT_SPOOL_CAP_BYTES: u64 = 64 * 1024 * 1024;

/// A failure enrolling a node. The token and request variants are refusals that the
/// agent learns of; the others are internal faults.
#[derive(Debug)]
#[non_exhaustive]
pub enum EnrollError {
    /// The enrollment token was malformed or carried a bad code.
    TokenInvalid,
    /// The enrollment token was well formed but expired.
    TokenExpired,
    /// The signing request was missing or would not parse or sign.
    Csr(String),
    /// An internal bootstrap failure.
    Bootstrap(BootstrapError),
    /// Persisting the enrolled host failed.
    Store(StoreError),
    /// The random source was unavailable.
    Random(String),
}

impl EnrollError {
    /// Whether a text is what the failure says of itself, for the gateway's own log.
    pub open spec fn is_shown_as(self, text: Seq<char>) -> bool {
        match self {
            EnrollError::TokenInvalid => text == "enrollment token invalid"@,
            EnrollError::TokenExpired => text == "enrollment token expired"@,
            EnrollError::Csr(why) => text == "enrollment CSR rejected: "@ + why@,
            EnrollError::Bootstrap(e) => exists|inner: Seq<char>| #[trigger]
                e.is_shown_as(inner) && text == "bootstrap: "@ + inner,
            EnrollError::Store(e) => text == "store: "@ + e.message(),
            EnrollError::Random(why) => text == "secure random source unavailable: "@ + why@,
        }
    }

    /// What the failure says of itself, for the gateway's own log.
    pub fn to_string(&self) -> (s: String)
        ensures
            self.is_shown_as(s@),
    {
        match self {
            EnrollError::TokenInvalid => "enrollment token invalid".to_owned(),
            EnrollError::TokenExpired => "enrollment token expired".to_owned(),
            EnrollError::Csr(why) => labelled("enrollment CSR rejected: ", why.as_str()),
            EnrollError::Bootstrap(e) => {
                let inner = e.to_string();
                proof {
                    assert(e.is_shown_as(inner@));
                }
                labelled("bootstrap: ", inner.as_str())
            },
            EnrollError::Store(e) => labelled("store: ", e.to_string().as_str()),
            EnrollError::Random(why) => labelled(
                "secure random source unavailable: ",
                why.as_str(),
            ),
        }
    }
}

impl EnrollError {
    /// The close reason that the agent is sent. Internal faults share one opaque
    /// code: the agent never learns gateway internals.
    pub open spec fn reason(self) -> Seq<char> {
        match self {
            EnrollError::TokenInvalid => "enroll_token_invalid"@,
            EnrollError::TokenExpired => "enroll_token_expired"@,
            EnrollError::Csr(_) => "enroll_csr_invalid"@,
            _ => "enroll_internal_error"@,
        }
    }

    /// The application-level close reason that the agent is sent.
    #[must_use]
    pub fn close_reason(&self) -> (s: &'static str)
        ensures
            s@ == self.reason(),
    {
        match self {
            EnrollError::TokenInvalid => "enroll_token_invalid",
            EnrollError::TokenExpired => "enroll_token_expired",
            EnrollError::Csr(_) => "enroll_csr_invalid",
            EnrollError::Bootstrap(_) | EnrollError::Store(_) | EnrollError::Random(_) => {
                "enroll_internal_error"
            },
        }
    }
}

/// A successful enrollment: the identity and certificate to return, and the
/// configuration to push.
#[derive(Debug)]
pub struct Grant {
    /// The identity that the control plane assigned this node.
    pub agent_id: String,
    /// The signed node certificate, DER-encoded.
    pub node_cert_der: Vec<u8>,
    /// The trust anchor, DER-encoded.
    pub ca_chain_der: Vec<u8>,
    /// The chosen protocol schema major.
    pub chosen_version: u32,
    /// When the grant was issued.
    pub issued_at: Timestamp,
    /// The agent configuration to push.
    pub config: AgentConfig,
}

impl Grant {
    /// Whether a wire grant carries what this one holds.
    pub open spec fn carried_by(self, g: EnrollGrant) -> bool {
        &&& g.agent_id@ == self.agent_id@
        &&& g.node_cert_der@ == self.node_cert_der@
        &&& g.ca_chain_der@ == self.ca_chain_der@
        &&& g.config is Some
        &&& g.config->0.same_as(self.config)
        &&& g.chosen_version == self.chosen_version
    }

    /// The wire grant that this result returns to the agent.
    #[must_use]
    pub fn to_enroll_grant(&self) -> (g: EnrollGrant)
        ensures
            self.carried_by(g),
    {
        EnrollGrant {
            agent_id: self.agent_id.clone(),
            node_cert_der: copied(&self.node_cert_der),
            ca_chain_der: copied(&self.ca_chain_der),
            config: Some(self.config.clone()),
            chosen_version: self.chosen_version,
        }
    }
}

/// A copy of some bytes.
pub(crate) fn copied(bytes: &Vec<u8>) -> (v: Vec<u8>)
    ensures
        v@ == bytes@,
{
    let mut v: Vec<u8> = Vec::new();
    v.extend_from_slice(bytes.as_slice());
    proof {
        assert(v@ =~= bytes@);
    }
    v
}

/// An enrollment that succeeded: the grant, and the rows that record it.
#[derive(Debug)]
pub struct Enrolled {
    /// What the agent is granted.
    pub grant: Grant,
    /// The host row.
    pub host: Host,
    /// The row of the GPU that the host advertised, if it advertised hardware.
    pub gpu: Option<Gpu>,
}

impl Enrolled {
    /// The grant to answer with, given what came of persisting the rows: none unless
    /// they are stored.
    ///
    /// # Errors
    /// [`EnrollError::Store`] if they are not.
    pub fn stored(self, outcome: Result<(), StoreError>) -> (r: Result<Grant, EnrollError>)
        ensures
            match (outcome, r) {
                (Ok(_), Ok(grant)) => grant == self.grant,
                (Err(e), Err(EnrollError::Store(f))) => e == f,
                _ => false,
            },
    {
        match outcome {
            Ok(_) => Ok(self.grant),
            Err(e) => Err(EnrollError::Store(e)),
        }
    }
}

/// The identity made of twelve random bytes.
pub open spec fn agent_id_of(bytes: Seq<u8>) -> Seq<char> {
    "agent_"@ + hex_text(bytes)
}

/// The default agent configuration pushed in a grant.
pub open spec fn is_default_config(c: AgentConfig) -> bool {
    &&& c.heartbeat_interval_ms == DEFAULT_HEARTBEAT_INTERVAL_MS
    &&& c.spool_cap_bytes == DEFAULT_SPOOL_CAP_BYTES
    &&& c.control_endpoint@ == Seq::<char>::empty()
    &&& c.chosen_tiers@ == Seq::<String>::empty()
    &&& c.config_version@ == "1"@
}

/// Whether a host row records the enrollment of an agent: bound to the given
/// account, enrolled now, not seen yet, with the certificate that carries its key.
pub open spec fn records_host(
    host: Host,
    agent_id: Seq<char>,
    account: Seq<char>,
    node_cert_der: Seq<u8>,
    now: Timestamp,
) -> bool {
    &&& host.id@ == agent_id
    &&& host.account@ == account
    &&& host.agent_pubkey@ == node_cert_der
    &&& host.status == HostStatus::Enrolled
    &&& host.enrolled_at == now
    &&& host.last_seen_at is None
}

/// Whether a GPU row records the hardware that a request advertises: one row where
/// it advertises any, with the larger of the two memory sizes, and `unknown` for a
/// model left empty.
pub open spec fn records_gpu(
    gpu: Option<Gpu>,
    agent_id: Seq<char>,
    request: EnrollRequest,
) -> bool {
    match (request.hw, gpu) {
        (Some(hw), Some(g)) => {
            &&& g.id@ == agent_id + "-gpu0"@
            &&& g.host@ == agent_id
            &&& g.model@ == (if hw.gpu_model@.len() == 0 {
                "unknown"@
            } else {
                hw.gpu_model@
            })
            &&& g.memory_mb == (if hw.vram_mb >= hw.unified_memory_mb {
                hw.vram_mb
            } else {
                hw.unified_memory_mb
            })
            &&& g.fingerprint is None
        },
        (None, None) => true,
        _ => false,
    }
}

/// Whether an enrollment is the one of the given identity, certificate and anchor.
pub open spec fn enrolls(
    e: Enrolled,
    agent_id: Seq<char>,
    account: Seq<char>,
    request: EnrollRequest,
    node_cert_der: Seq<u8>,
    ca_chain_der: Seq<u8>,
    now: Timestamp,
) -> bool {
    &&& e.grant.agent_id@ == agent_id
    &&& e.grant.node_cert_der@ == node_cert_der
    &&& e.grant.ca_chain_der@ == ca_chain_der
    &&& e.grant.chosen_version == CHOSEN_VERSION
    &&& e.grant.issued_at == now
    &&& is_default_config(e.grant.config)
    &&& records_host(e.host, agent_id, account, node_cert_der, now)
    &&& records_gpu(e.gpu, agent_id, request)
}

/// Whether an enrollment has a fresh identity and the given anchor.
pub open spec fn is_fresh_enrollment(
    e: Enrolled,
    account: Seq<char>,
    request: EnrollRequest,
    ca_chain_der: Seq<u8>,
    now: Timestamp,
) -> bool {
    exists|bytes: Seq<u8>|
        bytes.len() == 12 && drawn::<12>(bytes) && enrolls(
            e,
            #[trigger] agent_id_of(bytes),
            account,
            request,
            e.grant.node_cert_der@,
            ca_chain_der,
            now,
        )
}

/// Verifies enrollment tokens, issues node certificates, and says what to record.
pub struct Enroller {
    bootstrap: Bootstrap,
}

impl Enroller {
    /// The bootstrap that the enroller works with.
    pub closed spec fn trust(&self) -> Bootstrap {
        self.bootstrap
    }

    /// Builds an enroller over a security bootstrap.
    #[must_use]
    pub fn new(bootstrap: Bootstrap) -> (e: Self)
        ensures
            e.trust() == bootstrap,
    {
        Enroller { bootstrap }
    }

    /// The bootstrap that the enroller works with.
    #[must_use]
    pub fn bootstrap(&self) -> (b: &Bootstrap)
        ensures
            *b == self.trust(),
    {
        &self.bootstrap
    }

    /// Handles one request at `now`: verify the token, sign the request, say what to
    /// record.
    ///
    /// # Errors
    /// [`EnrollError::TokenInvalid`] and [`EnrollError::TokenExpired`] if the token is
    /// refused, before anything is signed; [`EnrollError::Csr`] if the signing request
    /// is missing or will not sign; [`EnrollError::Random`] and
    /// [`EnrollError::Bootstrap`] on an internal fault.
    pub fn enroll(&self, request: &EnrollRequest, now: Timestamp) -> (r: Result<
        Enrolled,
        EnrollError,
    >)
        ensures
            match token_claims(self.trust().key(), request.enroll_token@) {
                None => r is Err && r->Err_0 is TokenInvalid,
                Some((expires, _)) => if now@ > expires {
                    r is Err && r->Err_0 is TokenExpired
                } else if request.csr_der@.len() == 0 {
                    r is Err && r->Err_0 is Csr && r->Err_0->Csr_0@ == "csr_der is empty"@
                } else {
                    let anchor = certificate_der_of(encode_utf8(self.trust().anchor()));
                    match r {
                        Ok(e) => {
                            &&& csr_der_accepted(request.csr_der@)
                            &&& self.trust().authority().signed_der(
                                request.csr_der@,
                                e.grant.node_cert_der@,
                            )
                            &&& anchor is Some
                            &&& is_fresh_enrollment(
                                e,
                                self.trust().recorded().admin_account_id@,
                                *request,
                                anchor->0,
                                now,
                            )
                        },
                        Err(EnrollError::Bootstrap(BootstrapError::CertificateEncoding(text))) => {
                            &&& csr_der_accepted(request.csr_der@)
                            &&& anchor is None
                            &&& undecodable_saying(encode_utf8(self.trust().anchor()), text)
                        },
                        Err(EnrollError::Csr(text)) => self.trust().authority().refused_saying(
                            request.csr_der@,
                            text@,
                        ),
                        Err(EnrollError::Random(text)) => unavailable_saying::<12>(text),
                        Err(_) => false,
                    }
                },
            },
    {
        match self.bootstrap.verify_enrollment_token(request.enroll_token.as_str(), now) {
            Ok(_) => {},
            Err(BootstrapError::TokenInvalid) => {
                return Err(EnrollError::TokenInvalid);
            },
            Err(BootstrapError::TokenExpired) => {
                return Err(EnrollError::TokenExpired);
            },
            Err(other) => {
                return Err(EnrollError::Bootstrap(other));
            },
        }
        if request.csr_der.len() == 0 {
            return Err(EnrollError::Csr("csr_der is empty".to_owned()));
        }
        let bytes = match random_bytes::<12>() {
            Ok(bytes) => bytes,
            Err(e) => {
                return Err(EnrollError::Random(e.to_string()));
            },
        };
        let node_cert_der = match self.bootstrap.ca().sign_node_cert_der(
            request.csr_der.as_slice(),
        ) {
            Ok(der) => der,
            Err(e) => {
                let text = e.to_string();
                proof {
                    assert(self.trust().authority().refused_der(request.csr_der@, e));
                    assert(self.trust().authority().refused_saying(request.csr_der@, text@));
                }
                return Err(EnrollError::Csr(text));
            },
        };
        let ca_chain_der = match self.bootstrap.ca().cert_der() {
            Ok(der) => der,
            Err(e) => {
                return Err(EnrollError::Bootstrap(e));
            },
        };
        let e = self.finish(request, &bytes, node_cert_der, ca_chain_der, now);
        proof {
            assert(bytes@.len() == 12);
            assert(e.grant.node_cert_der@ == node_cert_der@);
            assert(is_fresh_enrollment(
                e,
                self.trust().recorded().admin_account_id@,
                *request,
                ca_chain_der@,
                now,
            ));
        }
        Ok(e)
    }

    /// The enrollment of an accepted request, given the random bytes of its identity,
    /// its signed certificate and the trust anchor.
    #[must_use]
    pub fn finish(
        &self,
        request: &EnrollRequest,
        identity: &[u8; 12],
        node_cert_der: Vec<u8>,
        ca_chain_der: Vec<u8>,
        now: Timestamp,
    ) -> (e: Enrolled)
        ensures
            enrolls(
                e,
                agent_id_of(identity@),
                self.trust().recorded().admin_account_id@,
                *request,
                node_cert_der@,
                ca_chain_der@,
                now,
            ),
    {
        let agent_id = prefixed("agent_", identity.as_slice());
        let (host, gpu) = self.record_host(agent_id.as_str(), request, &node_cert_der, now);
        let grant = Grant {
            agent_id,
            node_cert_der,
            ca_chain_der,
            chosen_version: CHOSEN_VERSION,
            issued_at: now,
            config: default_agent_config(),
        };
        Enrolled { grant, host, gpu }
    }

    /// The rows that record an enrolled host, bound to the bootstrap admin account,
    /// and its advertised GPU, if any.
    #[must_use]
    pub fn record_host(
        &self,
        agent_id: &str,
        request: &EnrollRequest,
        node_cert_der: &Vec<u8>,
        now: Timestamp,
    ) -> (rows: (Host, Option<Gpu>))
        ensures
            records_host(
                rows.0,
                agent_id@,
                self.trust().recorded().admin_account_id@,
                node_cert_der@,
                now,
            ),
            records_gpu(rows.1, agent_id@, *request),
    {
        let host = Host {
            id: HostId::new(agent_id),
            account: AccountId::new(self.bootstrap.admin_account_id()),
            agent_pubkey: copied(node_cert_der),
            status: HostStatus::Enrolled,
            enrolled_at: now,
            last_seen_at: None,
        };
        let gpu = match &request.hw {
            None => None,
            Some(hw) => {
                let model = if hw.gpu_model.as_str().is_empty() {
                    "unknown".to_owned()
                } else {
                    hw.gpu_model.clone()
                };
                let mut id = agent_id.to_owned();
                id.append("-gpu0");
                Some(
                    Gpu {
                        id: GpuId::new(id),
                        host: HostId::new(agent_id),
                        model,
                        memory_mb: if hw.vram_mb >= hw.unified_memory_mb {
                            hw.vram_mb
                        } else {
                            hw.unified_memory_mb
                        },
                        fingerprint: None,
                    },
                )
            },
        };
        (host, gpu)
    }
}

/// The default agent configuration pushed in a grant. Values are upper bounds that
/// the agent intersects with local policy.
fn default_agent_config() -> (c: AgentConfig)
    ensures
        is_default_config(c),
{
    AgentConfig {
        heartbeat_interval_ms: DEFAULT_HEARTBEAT_INTERVAL_MS,
        spool_cap_bytes: DEFAULT_SPOOL_CAP_BYTES,
        control_endpoint: String::new(),
        chosen_tiers: Vec::new(),
        config_version: "1".to_owned(),
    }
}

/// A recorded GPU tells the advertised model: where the hardware of a request has a
/// non-empty one, the row's model is that very text, and where it is empty the row says
/// that it is not known.
pub proof fn a_recorded_gpu_tells_the_advertised_model(
    enroller: Enroller,
    agent_id: &str,
    request: EnrollRequest,
    node_cert_der: Vec<u8>,
    now: Timestamp,
    rows: (Host, Option<Gpu>),
)
    requires
        call_ensures(
            Enroller::record_host,
            (&enroller, agent_id, &request, &node_cert_der, now),
            rows,
        ),
        request.hw is Some,
    ensures
        rows.1 is Some,
        (request.hw->0).gpu_model@.len() > 0 ==> (rows.1->0).model@ == (request.hw->0).gpu_model@,
        (request.hw->0).gpu_model@.len() == 0 ==> (rows.1->0).model@ == "unknown"@,
{
}

/// Two requests with different non-empty models are recorded with different models.
pub proof fn different_models_are_recorded_differently(
    enroller: Enroller,
    agent_id: &str,
    a: EnrollRequest,
    b: EnrollRequest,
    node_cert_der: Vec<u8>,
    now: Timestamp,
    x: (Host, Option<Gpu>),
    y: (Host, Option<Gpu>),
)
    requires
        call_ensures(Enroller::record_host, (&enroller, agent_id, &a, &node_cert_der, now), x),
        call_ensures(Enroller::record_host, (&enroller, agent_id, &b, &node_cert_der, now), y),
        a.hw is Some,
        b.hw is Some,
        (a.hw->0).gpu_model@.len() > 0,
        (b.hw->0).gpu_model@.len() > 0,
        (a.hw->0).gpu_model@ != (b.hw->0).gpu_model@,
    ensures
        (x.1->0).model@ != (y.1->0).model@,
{
}

/// A recorded GPU has the memory that was advertised: no less than either size, and one
/// of the two. It belongs to the host that was recorded with it; and hardware that was
/// not advertised is not recorded.
pub proof fn a_recorded_gpu_has_the_advertised_memory(
    enroller: Enroller,
    agent_id: &str,
    request: EnrollRequest,
    node_cert_der: Vec<u8>,
    now: Timestamp,
    rows: (Host, Option<Gpu>),
)
    requires
        call_ensures(
            Enroller::record_host,
            (&enroller, agent_id, &request, &node_cert_der, now),
            rows,
        ),
    ensures
        rows.1 is Some <==> request.hw is Some,
        rows.1 is Some ==> ({
            let hw = request.hw->0;
            let gpu = rows.1->0;
            &&& gpu.memory_mb >= hw.vram_mb
            &&& gpu.memory_mb >= hw.unified_memory_mb
            &&& gpu.memory_mb == hw.vram_mb || gpu.memory_mb == hw.unified_memory_mb
            &&& gpu.host@ == rows.0.id@
            &&& rows.0.id@.is_prefix_of(gpu.id@)
            &&& gpu.id@ != rows.0.id@
            &&& gpu.fingerprint is None
        }),
{
    if rows.1 is Some {
        reveal_strlit("-gpu0");
        let id = rows.0.id@;
        assert((id + "-gpu0"@).len() == id.len() + 5);
        assert(id.is_prefix_of(id + "-gpu0"@));
    }
}

/// The rows and the grant of an enrollment agree: one identity, one certificate, one
/// instant, under the account of the bootstrap; and the host is enrolled and not seen yet.
pub proof fn the_rows_agree_with_the_grant(
    enroller: Enroller,
    request: EnrollRequest,
    identity: [u8; 12],
    node_cert_der: Vec<u8>,
    ca_chain_der: Vec<u8>,
    now: Timestamp,
    e: Enrolled,
)
    requires
        call_ensures(
            Enroller::finish,
            (&enroller, &request, &identity, node_cert_der, ca_chain_der, now),
            e,
        ),
    ensures
        e.host.id@ == e.grant.agent_id@,
        e.host.agent_pubkey@ == e.grant.node_cert_der@,
        e.host.enrolled_at == e.grant.issued_at,
        e.host.account@ == enroller.trust().recorded().admin_account_id@,
        e.host.status == HostStatus::Enrolled,
        e.host.last_seen_at is None,
        e.gpu is Some ==> (e.gpu->0).host@ == e.grant.agent_id@,
        e.grant.node_cert_der@ == node_cert_der@,
        e.grant.ca_chain_der@ == ca_chain_der@,
        e.grant.issued_at == now,
{
}

/// Different random identities are different agents.
pub proof fn identities_are_told_apart(a: Seq<u8>, b: Seq<u8>)
    ensures
        agent_id_of(a) == agent_id_of(b) <==> a == b,
{
    if agent_id_of(a) == agent_id_of(b) {
        let n = "agent_"@.len() as int;
        assert(agent_id_of(a).skip(n) =~= hex_text(a));
        assert(agent_id_of(b).skip(n) =~= hex_text(b));
        crate::hexadecimal::hex_text_is_injective(a, b);
    }
}

/// What the agent sent it is told apart by: a bad token, an expired one and a bad signing
/// request have reasons of their own, while all internal faults share one that is none of
/// those, so it never learns gateway internals.
pub proof fn an_agent_learns_of_its_own_faults_only(a: EnrollError, b: EnrollError)
    ensures
        ({
            let internal = |e: EnrollError| e is Bootstrap || e is Store || e is Random;
            a.reason() == b.reason() <==> {
                ||| a is TokenInvalid && b is TokenInvalid
                ||| a is TokenExpired && b is TokenExpired
                ||| a is Csr && b is Csr
                ||| internal(a) && internal(b)
            }
        }),
{
    reveal_strlit("enroll_token_invalid");
    reveal_strlit("enroll_token_expired");
    reveal_strlit("enroll_csr_invalid");
    reveal_strlit("enroll_internal_error");
    assert("enroll_token_invalid"@[13] == 'i' && "enroll_token_expired"@[13] == 'e');
    assert("enroll_token_invalid"@.len() == 20 && "enroll_token_expired"@.len() == 20);
    assert("enroll_csr_invalid"@.len() == 18 && "enroll_internal_error"@.len() == 21);
    if a.reason() == b.reason() {
        assert(a.reason().len() == b.reason().len());
        assert(a.reason()[13] == b.reason()[13]);
    }
}

/// Nobody is enrolled but with a token that the bootstrap's key honors at that instant,
/// and a refused token is refused in one way whatever else the request holds.
pub proof fn the_token_is_judged_first(
    enroller: Enroller,
    a: EnrollRequest,
    b: EnrollRequest,
    now: Timestamp,
    r: Result<Enrolled, EnrollError>,
    s: Result<Enrolled, EnrollError>,
)
    requires
        call_ensures(Enroller::enroll, (&enroller, &a, now), r),
        call_ensures(Enroller::enroll, (&enroller, &b, now), s),
        a.enroll_token@ == b.enroll_token@,
    ensures
        r is Ok ==> token_claims(enroller.trust().key(), a.enroll_token@) is Some && now@ <= (
        token_claims(enroller.trust().key(), a.enroll_token@)->0).0,
        r is Err && r->Err_0 is TokenInvalid ==> s is Err && s->Err_0 is TokenInvalid,
        r is Err && r->Err_0 is TokenExpired ==> s is Err && s->Err_0 is TokenExpired,
        r is Ok && r->Ok_0.gpu is Some ==> (r->Ok_0.gpu->0).host@ == r->Ok_0.grant.agent_id@,
        r is Ok ==> r->Ok_0.host.id@ == r->Ok_0.grant.agent_id@ && r->Ok_0.host.agent_pubkey@
            == r->Ok_0.grant.node_cert_der@,
{
}

/// Nobody is granted anything whose rows are not stored: the grant that is answered with is
/// the one of the stored rows, and a failure to store them is kept.
pub proof fn a_grant_follows_its_rows(
    e: Enrolled,
    outcome: Result<(), StoreError>,
    r: Result<Grant, EnrollError>,
)
    requires
        call_ensures(Enrolled::stored, (e, outcome), r),
    ensures
        r is Ok <==> outcome is Ok,
        r is Ok ==> r->Ok_0 == e.grant,
        r is Err ==> r->Err_0 == EnrollError::Store(outcome->Err_0),
{
}

/// A grant goes on the wire as it is: each of its parts in its own field.
pub proof fn a_grant_goes_on_the_wire_as_it_is(grant: Grant, wire: EnrollGrant)
    requires
        call_ensures(Grant::to_enroll_grant, (&grant,), wire),
    ensures
        wire.agent_id@ == grant.agent_id@,
        wire.node_cert_der@ == grant.node_cert_der@,
        wire.ca_chain_der@ == grant.ca_chain_der@,
        wire.chosen_version == grant.chosen_version,
        wire.config is Some,
        (wire.config->0).heartbeat_interval_ms == grant.config.heartbeat_interval_ms,
        (wire.config->0).spool_cap_bytes == grant.config.spool_cap_bytes,
        (wire.config->0).control_endpoint@ == grant.config.control_endpoint@,
        (wire.config->0).config_version@ == grant.config.config_version@,
        (wire.config->0).chosen_tiers@.len() == grant.config.chosen_tiers@.len(),
{
    assert(crate::text::texts((wire.config->0).chosen_tiers@).len() == crate::text::texts(
        grant.config.chosen_tiers@,
    ).len());
}

} // verus!
