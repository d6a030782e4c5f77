//! What the two sides of enrollment make of each other: the host agent's request, the
//! gateway's decision, and what comes back.
use crate::agentproto::enroll::EnrollError as Refusal;
use crate::agentproto::enroll::Enrolled;
use crate::agentproto::enroll::Enroller;
use crate::agentproto::enroll::Grant;
use crate::agentproto::terminator::answers;
use crate::agentproto::terminator::stepped;
use crate::agentproto::terminator::ServeAction;
use crate::agentproto::terminator::ServeEvent;
use crate::agentproto::terminator::StateView;
use crate::domain::time::Timestamp;
use crate::hostd::config::DEFAULT_HEARTBEAT_MS;
use crate::hostd::config::DEFAULT_SPOOL_CAP_BYTES;
use crate::hostd::enroll::Handshake;
use crate::hostd::enroll::concludes;
use crate::hostd::enroll::opens;
use crate::hostd::enroll::requests;
use crate::hostd::enroll::EnrollError;
use crate::hostd::enroll::Enrollment;
use crate::hostd::enroll::EnrollmentRequest;
use crate::hostd::transport::TransportError;
use crate::hostd::wire::msg_id;
use crate::proto::codec::Channel;
use crate::proto::receive::Inbound;
use crate::proto::receive::WsEvent;
use crate::proto::receive::inbound;
use crate::proto::receive::reason_of;
use crate::proto::v1::Body;
use crate::proto::v1::EnrollGrant;
use crate::proto::v1::EnrollRequest;
use crate::proto::v1::Envelope;
use crate::store::Gpu;
use crate::store::Host;
use vstd::prelude::*;

verus! {

/// What an agent opens with is what a token-only connection may send: the gateway
/// takes it up as an enrollment request with the agent's token and signing request,
/// and will answer the very message that it came in.
pub proof fn an_opening_is_taken_up(
    e: Envelope,
    request: EnrollmentRequest,
    csr_der: Seq<u8>,
    number: u64,
    now_ms: i64,
    event: ServeEvent,
    t: StateView,
    a: ServeAction,
)
    requires
        opens(e, request, csr_der, number, now_ms),
        event is Received,
        event->Received_0 is Ok,
        event->Received_0->Ok_0.envelope == e,
        stepped(StateView::AwaitingEnroll, event, t, a),
    ensures
        t == StateView::Enrolling(msg_id(number as nat)),
        a is Enroll,
        requests(a->Enroll_0, request, csr_der),
{
}

/// A grant completes the handshake: the agent that receives the gateway's answer holds
/// the granted identity, certificate and chain, together with its own private key.
pub proof fn a_grant_completes_the_handshake(
    e: Envelope,
    grant: Grant,
    msg_id: Seq<char>,
    correlation_id: Seq<char>,
    channel: Channel,
    private_key_der: Seq<u8>,
    r: Result<Enrollment, EnrollError>,
)
    requires
        answers(e, grant, msg_id, correlation_id),
        concludes(Ok((channel, e)), private_key_der, r),
    ensures
        r is Ok,
        r->Ok_0.node.agent_id@ == grant.agent_id@,
        r->Ok_0.node.node_cert_der@ == grant.node_cert_der@,
        r->Ok_0.node.ca_chain_der@ == grant.ca_chain_der@,
        r->Ok_0.node.private_key_der@ == private_key_der,
        r->Ok_0.chosen_version == grant.chosen_version,
        r->Ok_0.config is Some,
        r->Ok_0.config->0.same_as(grant.config),
{
}

/// A refusal reaches the agent as one: the close reason that the gateway gives for it
/// comes back as a rejection with that reason, which ends enrollment.
pub proof fn a_refusal_reaches_the_agent(
    refusal: Refusal,
    given: Option<String>,
    reason: Option<String>,
    private_key_der: Seq<u8>,
    r: Result<Enrollment, EnrollError>,
)
    requires
        given is Some,
        given->0@ == refusal.reason(),
        reason_of(given, reason),
        concludes(Err(TransportError::Closed { reason }), private_key_der, r),
    ensures
        r is Err,
        r->Err_0 is Rejected,
        r->Err_0->Rejected_0@ == refusal.reason(),
{
    reveal_strlit("enroll_token_invalid");
    reveal_strlit("enroll_token_expired");
    reveal_strlit("enroll_csr_invalid");
    reveal_strlit("enroll_internal_error");
}

/// The gateway judges the very token and signs the very request that the agent was given,
/// and records the very hardware that it has: its accelerator's model, or that it is not
/// known, and its unified memory.
pub proof fn the_gateway_records_the_agents_hardware(
    request: EnrollmentRequest,
    csr_der: Vec<u8>,
    wire: EnrollRequest,
    enroller: Enroller,
    agent_id: &str,
    node_cert_der: Vec<u8>,
    now: Timestamp,
    rows: (Host, Option<Gpu>),
)
    requires
        call_ensures(EnrollmentRequest::on_wire, (&request, csr_der), wire),
        call_ensures(
            Enroller::record_host,
            (&enroller, agent_id, &wire, &node_cert_der, now),
            rows,
        ),
    ensures
        wire.enroll_token@ == request.token@,
        wire.csr_der@ == csr_der@,
        rows.1 is Some,
        request.profile.gpu_model@.len() > 0 ==> (rows.1->0).model@ == request.profile.gpu_model@,
        (rows.1->0).memory_mb == request.profile.unified_memory_mb,
        (rows.1->0).host@ == agent_id@,
{
}

/// The schema that the gateway chooses is one that the agent says it speaks.
pub proof fn the_chosen_version_is_spoken_by_the_agent(
    request: EnrollmentRequest,
    csr_der: Vec<u8>,
    wire: EnrollRequest,
    enroller: Enroller,
    identity: [u8; 12],
    node_cert_der: Vec<u8>,
    ca_chain_der: Vec<u8>,
    now: Timestamp,
    e: Enrolled,
)
    requires
        call_ensures(EnrollmentRequest::on_wire, (&request, csr_der), wire),
        call_ensures(
            Enroller::finish,
            (&enroller, &wire, &identity, node_cert_der, ca_chain_der, now),
            e,
        ),
    ensures
        wire.supported_versions is Some,
        (wire.supported_versions->0).min <= e.grant.chosen_version,
        e.grant.chosen_version <= (wire.supported_versions->0).max,
{
}

/// What the gateway grants is what the agent ends up with: the identity that the host is
/// recorded under, the certificate that it is recorded with, and the pushed
/// configuration, next to the private key that stayed with the agent.
pub proof fn the_agent_ends_up_with_what_was_recorded(
    enroller: Enroller,
    request: EnrollRequest,
    identity: [u8; 12],
    node_cert_der: Vec<u8>,
    ca_chain_der: Vec<u8>,
    now: Timestamp,
    e: Enrolled,
    answer: Envelope,
    channel: Channel,
    h: Handshake,
    r: Result<Enrollment, EnrollError>,
    sent: EnrollGrant,
)
    requires
        call_ensures(
            Enroller::finish,
            (&enroller, &request, &identity, node_cert_der, ca_chain_der, now),
            e,
        ),
        call_ensures(Grant::to_enroll_grant, (&e.grant,), sent),
        answer.body == Some(Body::EnrollGrant(sent)),
        call_ensures(Handshake::on_reply, (h, Ok((channel, answer))), r),
    ensures
        r is Ok,
        r->Ok_0.node.agent_id@ == e.host.id@,
        r->Ok_0.node.node_cert_der@ == e.host.agent_pubkey@,
        r->Ok_0.node.node_cert_der@ == node_cert_der@,
        r->Ok_0.node.ca_chain_der@ == ca_chain_der@,
        r->Ok_0.node.private_key_der@ == h@,
        r->Ok_0.config is Some,
        (r->Ok_0.config->0).heartbeat_interval_ms == e.grant.config.heartbeat_interval_ms,
        (r->Ok_0.config->0).spool_cap_bytes == e.grant.config.spool_cap_bytes,
        (r->Ok_0.config->0).config_version@ == e.grant.config.config_version@,
        r->Ok_0.chosen_version == e.grant.chosen_version,
{
}

/// An agent is not refused where it may try again, and is where it may not: whatever the
/// gateway closes with for a refusal is a rejection, which is not transient.
pub proof fn a_refused_agent_does_not_try_again(
    refusal: Refusal,
    reason: String,
    seen: Inbound,
    h: Handshake,
    r: Result<Enrollment, EnrollError>,
    transient: bool,
)
    requires
        reason@ == refusal.reason(),
        call_ensures(inbound, (WsEvent::Close(Some(reason)),), seen),
        call_ensures(
            Handshake::on_reply,
            (h, Err(TransportError::Closed { reason: seen->Closed_0 })),
            r,
        ),
        r is Err ==> call_ensures(EnrollError::is_transient, (&r->Err_0,), transient),
    ensures
        seen is Closed,
        r is Err,
        r->Err_0 is Rejected,
        (r->Err_0->Rejected_0)@ == refusal.reason(),
        !transient,
{
    reveal_strlit("enroll_token_invalid");
    reveal_strlit("enroll_token_expired");
    reveal_strlit("enroll_csr_invalid");
    reveal_strlit("enroll_internal_error");
}

/// The configuration that a grant pushes is the one that an agent runs with by itself: the
/// same heartbeat, which is one, and the same cap on the spool; and it sends the agent
/// nowhere else.
pub proof fn a_pushed_configuration_is_the_agents_own_default(
    enroller: Enroller,
    request: EnrollRequest,
    identity: [u8; 12],
    node_cert_der: Vec<u8>,
    ca_chain_der: Vec<u8>,
    now: Timestamp,
    e: Enrolled,
)
    requires
        call_ensures(
            Enroller::finish,
            (&enroller, &request, &identity, node_cert_der, ca_chain_der, now),
            e,
        ),
    ensures
        e.grant.config.heartbeat_interval_ms == DEFAULT_HEARTBEAT_MS,
        e.grant.config.heartbeat_interval_ms > 0,
        e.grant.config.spool_cap_bytes == DEFAULT_SPOOL_CAP_BYTES,
        e.grant.config.control_endpoint@.len() == 0,
        e.grant.config.chosen_tiers@.len() == 0,
        e.grant.config.config_version@.len() > 0,
{
    reveal_strlit("1");
}

} // verus!
