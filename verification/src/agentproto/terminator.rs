//! The decisions of the session terminator: how a connection is served.
//!
//! A connection arrives authenticated (its identity is known) or token-only. A
//! token-only one first enrolls: it may send nothing but one enrollment request,
//! and is answered with a grant or refused with a reason. From then on every
//! message that it sends is bridged onto the bus under the connection's identity,
//! never under anything the message says of its sender.
//!
//! Serving is a machine of [`ServeState`]s: [`SessionTerminator::start`] gives the
//! first state and action, and [`step`] the next ones for what came of an action.
//! The caller performs the actions.
use crate::agentproto::bootstrap::token::prefixed;
use crate::agentproto::bridge::BridgeError;
use crate::agentproto::enroll::EnrollError;
use crate::agentproto::enroll::Grant;
use crate::agentproto::event::event_of;
use crate::agentproto::event::AgentEvent;
use crate::agentproto::event::AgentEventKind;
use crate::agentproto::event::EventView;
use crate::agentproto::session::InboundFrame;
use crate::agentproto::session::PeerIdentity;
use crate::agentproto::session::SessionError;
use crate::hexadecimal::hex_text;
use crate::proto::v1::Body;
use crate::proto::v1::EnrollRequest;
use crate::proto::v1::Envelope;
use crate::random::drawn;
use crate::random::random_bytes;
use crate::random::unavailable;
use crate::text::labelled;
use vstd::prelude::*;

verus! {

/// A failure driving an agent session.
#[derive(Debug)]
#[non_exhaustive]
pub enum TerminatorError {
    /// The underlying session failed.
    Session(SessionError),
    /// Publishing a decoded event failed.
    Bridge(BridgeError),
    /// Enrollment of a token-only connection failed: the agent was refused.
    Enroll(EnrollError),
    /// The connection violated the expectations for its identity.
    Protocol(String),
}

impl TerminatorError {
    /// Whether a text is what the failure says of itself.
    pub open spec fn is_shown_as(self, text: Seq<char>) -> bool {
        match self {
            TerminatorError::Session(e) => exists|inner: Seq<char>| #[trigger]
                e.is_shown_as(inner) && text == "session: "@ + inner,
            TerminatorError::Bridge(e) => exists|inner: Seq<char>| #[trigger]
                e.is_shown_as(inner) && text == "bridge: "@ + inner,
            TerminatorError::Enroll(e) => exists|inner: Seq<char>| #[trigger]
                e.is_shown_as(inner) && text == "enroll: "@ + inner,
            TerminatorError::Protocol(why) => text == "protocol: "@ + why@,
        }
    }

    /// What the failure says of itself.
    pub fn to_string(&self) -> (s: String)
        ensures
            self.is_shown_as(s@),
    {
        match self {
            TerminatorError::Session(e) => {
                let inner = e.to_string();
                proof {
                    assert(e.is_shown_as(inner@));
                }
                labelled("session: ", inner.as_str())
            },
            TerminatorError::Bridge(e) => {
                let inner = e.to_string();
                proof {
                    assert(e.is_shown_as(inner@));
                }
                labelled("bridge: ", inner.as_str())
            },
            TerminatorError::Enroll(e) => {
                let inner = e.to_string();
                proof {
                    assert(e.is_shown_as(inner@));
                }
                labelled("enroll: ", inner.as_str())
            },
            TerminatorError::Protocol(why) => labelled("protocol: ", why.as_str()),
        }
    }
}

/// What a completed run did.
#[derive(Debug, Clone, PartialEq, Eq)]
pub struct ServeSummary {
    /// The authenticated agent this session belonged to, once known.
    pub agent_id: Option<String>,
    /// How many decoded messages were bridged onto the bus.
    pub events_bridged: usize,
}

impl Default for ServeSummary {
    fn default() -> (s: Self)
        ensures
            s.agent_id is None,
            s.events_bridged == 0,
    {
        ServeSummary { agent_id: None, events_bridged: 0 }
    }
}

/// Where the service of a connection stands.
#[derive(Debug)]
pub enum ServeState {
    /// Token-only, and its first message is awaited.
    AwaitingEnroll,
    /// Its enrollment is being decided.
    Enrolling {
        /// The message that the grant will answer.
        correlation_id: String,
    },
    /// Its grant is being sent.
    SendingGrant {
        /// The granted identity.
        agent_id: String,
        /// The identity of the grant's envelope.
        msg_id: String,
    },
    /// Its enrollment is being announced on the bus.
    Announcing {
        /// The granted identity.
        agent_id: String,
    },
    /// Its next message is awaited.
    Bridging {
        /// The connection's identity.
        agent_id: String,
        /// How many events were bridged so far.
        events: usize,
    },
    /// One of its messages is being published.
    Publishing {
        /// The connection's identity.
        agent_id: String,
        /// How many events were bridged so far.
        events: usize,
    },
    /// The service is over.
    Ended,
}

/// What the caller is to do next.
#[derive(Debug)]
pub enum ServeAction {
    /// Receive the next frame and report [`ServeEvent::Received`].
    Receive,
    /// Decide this request and report [`ServeEvent::Enrolled`].
    Enroll(EnrollRequest),
    /// Send this envelope on the control channel and report [`ServeEvent::Sent`].
    Send(Envelope),
    /// Publish this event and report [`ServeEvent::Published`].
    Publish(AgentEvent),
    /// Close with this reason, and end with this error.
    Refuse {
        /// The application-level close reason.
        reason: &'static str,
        /// The outcome of the run.
        error: TerminatorError,
    },
    /// End with this error.
    Fail(TerminatorError),
    /// End well.
    Finish(ServeSummary),
}

/// What came of an action.
#[derive(Debug)]
pub enum ServeEvent {
    /// A frame, or the failure to receive one.
    Received(Result<InboundFrame, SessionError>),
    /// The decision on an enrollment request.
    Enrolled {
        /// The grant, or why there is none.
        outcome: Result<Grant, EnrollError>,
        /// A fresh identity for the grant's envelope.
        msg_id: String,
    },
    /// The outcome of a send.
    Sent(Result<(), SessionError>),
    /// The outcome of a publish.
    Published(Result<(), BridgeError>),
}

/// Where the service of a connection stands, as values.
pub enum StateView {
    /// Token-only, and its first message is awaited.
    AwaitingEnroll,
    /// Its enrollment is being decided; the message that the grant will answer.
    Enrolling(Seq<char>),
    /// Its grant is being sent; the granted identity and the envelope's.
    SendingGrant(Seq<char>, Seq<char>),
    /// Its enrollment is being announced; the granted identity.
    Announcing(Seq<char>),
    /// Its next message is awaited; its identity and the events bridged.
    Bridging(Seq<char>, nat),
    /// One of its messages is being published; its identity and the events bridged.
    Publishing(Seq<char>, nat),
    /// The service is over.
    Ended,
}

impl View for ServeState {
    type V = StateView;

    open spec fn view(&self) -> StateView {
        match self {
            ServeState::AwaitingEnroll => StateView::AwaitingEnroll,
            ServeState::Enrolling { correlation_id } => StateView::Enrolling(correlation_id@),
            ServeState::SendingGrant { agent_id, msg_id } => StateView::SendingGrant(
                agent_id@,
                msg_id@,
            ),
            ServeState::Announcing { agent_id } => StateView::Announcing(agent_id@),
            ServeState::Bridging { agent_id, events } => StateView::Bridging(
                agent_id@,
                *events as nat,
            ),
            ServeState::Publishing { agent_id, events } => StateView::Publishing(
                agent_id@,
                *events as nat,
            ),
            ServeState::Ended => StateView::Ended,
        }
    }
}

impl StateView {
    /// The identity that the connection has, once it has one.
    pub open spec fn identity(self) -> Option<Seq<char>> {
        match self {
            StateView::SendingGrant(a, _) => Some(a),
            StateView::Announcing(a) => Some(a),
            StateView::Bridging(a, _) => Some(a),
            StateView::Publishing(a, _) => Some(a),
            _ => None,
        }
    }

    /// The events bridged so far.
    pub open spec fn tally(self) -> nat {
        match self {
            StateView::Bridging(_, n) => n,
            StateView::Publishing(_, n) => n,
            _ => 0,
        }
    }
}

/// What is odd about a frame that a served agent sent. It changes nothing of how the
/// frame is served: it is for the log.
#[derive(Debug, Clone, Copy, PartialEq, Eq, Structural)]
pub enum Oddity {
    /// An enrollment request of an agent that has its identity already. It is ignored.
    RepeatedEnroll,
    /// A message on another lane than its kind rides. It is bridged all the same.
    UnexpectedLane(AgentEventKind),
}

/// The oddity of a frame, given where the service stands when it comes in. The first
/// message of a token-only connection has none: it is served or refused.
pub open spec fn oddity_of(s: StateView, frame: InboundFrame) -> Option<Oddity> {
    match s {
        StateView::Bridging(agent_id, _) => if frame.envelope.body is Some
            && frame.envelope.body->0 is EnrollRequest {
            Some(Oddity::RepeatedEnroll)
        } else {
            match event_of(agent_id, frame.envelope) {
                Some(event) => if frame.channel != event.kind.lane() {
                    Some(Oddity::UnexpectedLane(event.kind))
                } else {
                    None
                },
                None => None,
            }
        },
        _ => None,
    }
}

/// The oddity of a frame, given where the service stands when it comes in.
#[must_use]
pub fn oddity(state: &ServeState, frame: &InboundFrame) -> (r: Option<Oddity>)
    ensures
        r == oddity_of(state@, *frame),
{
    let agent_id = match state {
        ServeState::Bridging { agent_id, .. } => agent_id,
        _ => {
            return None;
        },
    };
    match &frame.envelope.body {
        Some(Body::EnrollRequest(_)) => {
            return Some(Oddity::RepeatedEnroll);
        },
        _ => {},
    }
    match AgentEvent::from_envelope(agent_id.as_str(), &frame.envelope) {
        Some(event) => if frame.channel != event.kind.expected_channel() {
            Some(Oddity::UnexpectedLane(event.kind))
        } else {
            None
        },
        None => None,
    }
}

/// Whether an event is one that the state waits for.
pub open spec fn awaits(s: StateView, event: ServeEvent) -> bool {
    match (s, event) {
        (StateView::AwaitingEnroll, ServeEvent::Received(_)) => true,
        (StateView::Enrolling(_), ServeEvent::Enrolled { .. }) => true,
        (StateView::SendingGrant(_, _), ServeEvent::Sent(_)) => true,
        (StateView::Announcing(_), ServeEvent::Published(_)) => true,
        (StateView::Bridging(_, _), ServeEvent::Received(_)) => true,
        (StateView::Publishing(_, n), ServeEvent::Published(_)) => n < usize::MAX,
        _ => false,
    }
}

/// The text of the complaint about a token-only connection that may not enroll.
pub open spec fn no_enrollment_handler() -> Seq<char> {
    "token-only connection, but this terminator has no enrollment handler"@
}

/// The text of the complaint about a token-only connection's first message.
pub open spec fn not_an_enroll_request() -> Seq<char> {
    "token-only connection's first message was not an EnrollRequest"@
}

/// The event that announces an enrolled agent.
pub open spec fn enrolled_event(agent_id: Seq<char>, msg_id: Seq<char>) -> EventView {
    EventView {
        agent_id,
        kind: AgentEventKind::Enrolled,
        msg_id,
        correlation_id: Seq::empty(),
        attempt_id: None,
    }
}

/// Whether an envelope answers an enrollment with a grant.
pub open spec fn answers(
    e: Envelope,
    grant: Grant,
    msg_id: Seq<char>,
    correlation_id: Seq<char>,
) -> bool {
    &&& e.protocol_version == grant.chosen_version
    &&& e.msg_id@ == msg_id
    &&& e.correlation_id@ == correlation_id
    &&& e.timestamp_ms == grant.issued_at@
    &&& e.body is Some
    &&& e.body->0 is EnrollGrant
    &&& grant.carried_by(e.body->0->EnrollGrant_0)
}

/// Whether a connection of the given identity starts in state `t` with action `a`.
pub open spec fn started(
    identity: PeerIdentity,
    enrolls: bool,
    t: StateView,
    a: ServeAction,
) -> bool {
    match identity.named() {
        Some(agent_id) => t == StateView::Bridging(agent_id, 0) && a is Receive,
        None => if enrolls {
            t == StateView::AwaitingEnroll && a is Receive
        } else {
            &&& t == StateView::Ended
            &&& a is Refuse
            &&& a->reason@ == "enroll_unsupported"@
            &&& a->error is Protocol
            &&& a->error->Protocol_0@ == no_enrollment_handler()
        },
    }
}

/// Whether state `s` goes on event `event` to state `t` with action `a`.
pub open spec fn stepped(s: StateView, event: ServeEvent, t: StateView, a: ServeAction) -> bool {
    match (s, event) {
        (StateView::AwaitingEnroll, ServeEvent::Received(Err(e))) => {
            &&& t == StateView::Ended
            &&& a == ServeAction::Fail(TerminatorError::Session(e))
        },
        (StateView::AwaitingEnroll, ServeEvent::Received(Ok(frame))) => {
            if frame.envelope.body is Some && frame.envelope.body->0 is EnrollRequest {
                &&& t == StateView::Enrolling(frame.envelope.msg_id@)
                &&& a == ServeAction::Enroll(frame.envelope.body->0->EnrollRequest_0)
            } else {
                &&& t == StateView::Ended
                &&& a is Refuse
                &&& a->reason@ == "expected_enroll"@
                &&& a->error is Protocol
                &&& a->error->Protocol_0@ == not_an_enroll_request()
            }
        },
        (StateView::Enrolling(_), ServeEvent::Enrolled { outcome: Err(e), .. }) => {
            &&& t == StateView::Ended
            &&& a is Refuse
            &&& a->reason@ == e.reason()
            &&& a->error == TerminatorError::Enroll(e)
        },
        (StateView::Enrolling(c), ServeEvent::Enrolled { outcome: Ok(grant), msg_id }) => {
            &&& t == StateView::SendingGrant(grant.agent_id@, msg_id@)
            &&& a is Send
            &&& answers(a->Send_0, grant, msg_id@, c)
        },
        (StateView::SendingGrant(_, _), ServeEvent::Sent(Err(e))) => {
            &&& t == StateView::Ended
            &&& a == ServeAction::Fail(TerminatorError::Session(e))
        },
        (StateView::SendingGrant(agent_id, msg_id), ServeEvent::Sent(Ok(_))) => {
            &&& t == StateView::Announcing(agent_id)
            &&& a is Publish
            &&& a->Publish_0@ == enrolled_event(agent_id, msg_id)
        },
        (StateView::Announcing(_), ServeEvent::Published(Err(e))) => {
            &&& t == StateView::Ended
            &&& a == ServeAction::Fail(TerminatorError::Bridge(e))
        },
        (StateView::Announcing(agent_id), ServeEvent::Published(Ok(_))) => {
            &&& t == StateView::Bridging(agent_id, 1)
            &&& a is Receive
        },
        (StateView::Bridging(agent_id, n), ServeEvent::Received(Ok(frame))) => {
            match event_of(agent_id, frame.envelope) {
                Some(v) => {
                    &&& t == StateView::Publishing(agent_id, n)
                    &&& a is Publish
                    &&& a->Publish_0@ == v
                },
                None => {
                    &&& t == s
                    &&& a is Receive
                },
            }
        },
        (StateView::Bridging(agent_id, n), ServeEvent::Received(Err(e))) => {
            &&& t == StateView::Ended
            &&& if e is Closed {
                &&& a is Finish
                &&& a->Finish_0.agent_id is Some
                &&& a->Finish_0.agent_id->0@ == agent_id
                &&& a->Finish_0.events_bridged == n
            } else {
                a == ServeAction::Fail(TerminatorError::Session(e))
            }
        },
        (StateView::Publishing(_, _), ServeEvent::Published(Err(e))) => {
            &&& t == StateView::Ended
            &&& a == ServeAction::Fail(TerminatorError::Bridge(e))
        },
        (StateView::Publishing(agent_id, n), ServeEvent::Published(Ok(_))) => {
            &&& t == StateView::Bridging(agent_id, n + 1)
            &&& a is Receive
        },
        _ => false,
    }
}

/// Decides how agent sessions are served.
#[derive(Debug, Clone, Copy, PartialEq, Eq, Structural)]
pub struct SessionTerminator {
    enrolls: bool,
}

impl SessionTerminator {
    /// Whether token-only connections may enroll.
    pub closed spec fn enrolling(self) -> bool {
        self.enrolls
    }

    /// A terminator that serves authenticated connections and refuses token-only
    /// ones.
    #[must_use]
    pub fn new() -> (t: Self)
        ensures
            !t.enrolling(),
    {
        SessionTerminator { enrolls: false }
    }

    /// A terminator that also enrolls token-only connections.
    #[must_use]
    pub fn with_enrollment() -> (t: Self)
        ensures
            t.enrolling(),
    {
        SessionTerminator { enrolls: true }
    }

    /// Begins to serve a connection.
    #[must_use]
    pub fn start(&self, identity: &PeerIdentity) -> (r: (ServeState, ServeAction))
        ensures
            started(*identity, self.enrolling(), r.0@, r.1),
    {
        match identity.agent_id() {
            Some(id) => (
                ServeState::Bridging { agent_id: id.to_owned(), events: 0 },
                ServeAction::Receive,
            ),
            None => if self.enrolls {
                (ServeState::AwaitingEnroll, ServeAction::Receive)
            } else {
                (
                    ServeState::Ended,
                    ServeAction::Refuse {
                        reason: "enroll_unsupported",
                        error: TerminatorError::Protocol(
                            "token-only connection, but this terminator has no enrollment handler".to_owned(),
                        ),
                    },
                )
            },
        }
    }
}

/// Takes what came of the last action, and says where that leaves the service and
/// what to do next.
#[must_use]
pub fn step(state: ServeState, event: ServeEvent) -> (r: (ServeState, ServeAction))
    requires
        awaits(state@, event),
    ensures
        stepped(state@, event, r.0@, r.1),
{
    match (state, event) {
        (ServeState::AwaitingEnroll, ServeEvent::Received(received)) => enroll_bootstrap(received),
        (
            ServeState::Enrolling { correlation_id },
            ServeEvent::Enrolled { outcome, msg_id },
        ) => grant_or_refuse(correlation_id, outcome, msg_id),
        (ServeState::SendingGrant { agent_id, msg_id }, ServeEvent::Sent(outcome)) => {
            match outcome {
                Err(e) => (ServeState::Ended, ServeAction::Fail(TerminatorError::Session(e))),
                Ok(_) => {
                    let event = AgentEvent::enrolled(&agent_id, &msg_id);
                    (ServeState::Announcing { agent_id }, ServeAction::Publish(event))
                },
            }
        },
        (ServeState::Announcing { agent_id }, ServeEvent::Published(outcome)) => {
            match outcome {
                Err(e) => (ServeState::Ended, ServeAction::Fail(TerminatorError::Bridge(e))),
                Ok(_) => (ServeState::Bridging { agent_id, events: 1 }, ServeAction::Receive),
            }
        },
        (ServeState::Bridging { agent_id, events }, ServeEvent::Received(received)) => {
            match received {
                Ok(frame) => bridge_frame(agent_id, events, &frame),
                Err(SessionError::Closed { .. }) => (
                    ServeState::Ended,
                    ServeAction::Finish(
                        ServeSummary { agent_id: Some(agent_id), events_bridged: events },
                    ),
                ),
                Err(other) => (
                    ServeState::Ended,
                    ServeAction::Fail(TerminatorError::Session(other)),
                ),
            }
        },
        (ServeState::Publishing { agent_id, events }, ServeEvent::Published(outcome)) => {
            match outcome {
                Err(e) => (ServeState::Ended, ServeAction::Fail(TerminatorError::Bridge(e))),
                Ok(_) => (
                    ServeState::Bridging { agent_id, events: events + 1 },
                    ServeAction::Receive,
                ),
            }
        },
        (state, _) => (state, ServeAction::Receive),
    }
}

/// Judges the first message of a token-only connection: only an enrollment request
/// is let through.
fn enroll_bootstrap(received: Result<InboundFrame, SessionError>) -> (r: (ServeState, ServeAction))
    ensures
        stepped(StateView::AwaitingEnroll, ServeEvent::Received(received), r.0@, r.1),
{
    match received {
        Err(e) => (ServeState::Ended, ServeAction::Fail(TerminatorError::Session(e))),
        Ok(frame) => match frame.envelope.body {
            Some(Body::EnrollRequest(request)) => (
                ServeState::Enrolling { correlation_id: frame.envelope.msg_id },
                ServeAction::Enroll(request),
            ),
            _ => (
                ServeState::Ended,
                ServeAction::Refuse {
                    reason: "expected_enroll",
                    error: TerminatorError::Protocol(
                        "token-only connection's first message was not an EnrollRequest".to_owned(),
                    ),
                },
            ),
        },
    }
}

/// Answers an enrollment request with its grant, or refuses it with a reason that
/// gives nothing of the gateway away.
fn grant_or_refuse(
    correlation_id: String,
    outcome: Result<Grant, EnrollError>,
    msg_id: String,
) -> (r: (ServeState, ServeAction))
    ensures
        stepped(
            StateView::Enrolling(correlation_id@),
            ServeEvent::Enrolled { outcome, msg_id },
            r.0@,
            r.1,
        ),
{
    match outcome {
        Err(e) => (
            ServeState::Ended,
            ServeAction::Refuse { reason: e.close_reason(), error: TerminatorError::Enroll(e) },
        ),
        Ok(grant) => {
            let envelope = Envelope {
                protocol_version: grant.chosen_version,
                msg_id: msg_id.clone(),
                correlation_id,
                timestamp_ms: grant.issued_at.as_millis(),
                body: Some(Body::EnrollGrant(grant.to_enroll_grant())),
            };
            (
                ServeState::SendingGrant { agent_id: grant.agent_id, msg_id },
                ServeAction::Send(envelope),
            )
        },
    }
}

/// Bridges one frame of an authenticated connection if it is an agent message, and
/// ignores it otherwise: an enrollment request on such a connection too.
fn bridge_frame(agent_id: String, events: usize, frame: &InboundFrame) -> (r: (
    ServeState,
    ServeAction,
))
    ensures
        stepped(
            StateView::Bridging(agent_id@, events as nat),
            ServeEvent::Received(Ok(*frame)),
            r.0@,
            r.1,
        ),
{
    match AgentEvent::from_envelope(agent_id.as_str(), &frame.envelope) {
        Some(event) => (
            ServeState::Publishing { agent_id, events },
            ServeAction::Publish(event),
        ),
        None => (ServeState::Bridging { agent_id, events }, ServeAction::Receive),
    }
}

/// The message identity made of twelve bytes.
pub open spec fn grant_msg_id(bytes: Seq<u8>) -> Seq<char> {
    "grant_"@ + hex_text(bytes)
}

/// Whether a message identity is made of twelve random bytes, or of zeros where the
/// random source failed.
pub open spec fn is_grant_msg_id(id: Seq<char>) -> bool {
    exists|bytes: Seq<u8>|
        {
            &&& bytes.len() == 12
            &&& drawn::<12>(bytes) || (unavailable::<12>() && bytes == Seq::new(
                12,
                |i: int| 0u8,
            ))
            &&& id == #[trigger] grant_msg_id(bytes)
        }
}

/// Mints a message identity for a gateway-originated envelope. Uniqueness is
/// best-effort: an unavailable random source yields the zero identity rather than
/// failing the connection.
#[must_use]
pub fn mint_msg_id() -> (id: String)
    ensures
        is_grant_msg_id(id@),
{
    let bytes: [u8; 12] = match random_bytes::<12>() {
        Ok(bytes) => bytes,
        Err(_) => [0u8;12],
    };
    let id = prefixed("grant_", bytes.as_slice());
    proof {
        assert(drawn::<12>(bytes@) || bytes@ =~= Seq::new(12, |i: int| 0u8));
        assert(id@ == grant_msg_id(bytes@));
    }
    id
}

/// Identity is fenced to the connection: a connection without one publishes
/// nothing, gets one only by a grant, and from then on keeps it to the end and
/// publishes under it alone.
pub proof fn identity_is_fenced_to_the_connection(
    s: StateView,
    event: ServeEvent,
    t: StateView,
    a: ServeAction,
)
    requires
        stepped(s, event, t, a),
    ensures
        match s.identity() {
            None => {
                &&& a !is Publish
                &&& (t.identity() is Some ==> event is Enrolled && event->outcome is Ok
                    && t.identity()->0 == event->outcome->Ok_0.agent_id@)
            },
            Some(agent_id) => {
                &&& (a is Publish ==> a->Publish_0@.agent_id == agent_id)
                &&& (t == StateView::Ended || t.identity() == Some(agent_id))
            },
        },
{
}

/// A token-only connection is refused unless its first message is an enrollment
/// request, and a refused enrollment ends the service with its reason.
pub proof fn a_refused_agent_is_told_why(s: StateView, event: ServeEvent, t: StateView, a: ServeAction)
    requires
        stepped(s, event, t, a),
        s == StateView::AwaitingEnroll || s is Enrolling,
        t.identity() is None,
        t !is Enrolling,
    ensures
        t == StateView::Ended,
        event is Enrolled ==> a is Refuse && event->outcome is Err && a->reason@
            == event->outcome->Err_0.reason(),
        event is Received && event->Received_0 is Ok ==> a is Refuse && a->reason@
            == "expected_enroll"@,
{
}

/// One step of a run.
pub struct ServeStep {
    /// Where it began.
    pub from: StateView,
    /// What came of the action.
    pub event: ServeEvent,
    /// Where it led.
    pub to: StateView,
    /// What to do next.
    pub action: ServeAction,
}

/// Whether a run is a chain of steps from a state.
pub open spec fn is_run(start: StateView, steps: Seq<ServeStep>) -> bool {
    forall|i: int|
        0 <= i < steps.len() ==> {
            let st = #[trigger] steps[i];
            &&& st.from == (if i == 0 {
                start
            } else {
                steps[i - 1].to
            })
            &&& stepped(st.from, st.event, st.to, st.action)
        }
}

/// How many publishes of a run succeeded.
pub open spec fn publishes(steps: Seq<ServeStep>) -> nat
    decreases steps.len(),
{
    if steps.len() == 0 {
        0
    } else {
        publishes(steps.drop_last()) + (if steps.last().event is Published
            && steps.last().event->Published_0 is Ok {
            1nat
        } else {
            0
        })
    }
}

/// A run without its last step is a run.
proof fn a_run_begins_with_a_run(start: StateView, steps: Seq<ServeStep>)
    requires
        is_run(start, steps),
        steps.len() > 0,
    ensures
        is_run(start, steps.drop_last()),
{
    let before = steps.drop_last();
    assert forall|i: int| 0 <= i < before.len() implies {
        let st = #[trigger] before[i];
        &&& st.from == (if i == 0 {
            start
        } else {
            before[i - 1].to
        })
        &&& stepped(st.from, st.event, st.to, st.action)
    } by {
        assert(before[i] == steps[i]);
        if i > 0 {
            assert(before[i - 1] == steps[i - 1]);
        }
    }
}

/// One step counts at most its own publish, and a run that finishes reports the
/// count.
#[verifier::spinoff_prover]
proof fn a_step_counts_its_publish(s: StateView, event: ServeEvent, t: StateView, a: ServeAction)
    requires
        stepped(s, event, t, a),
        s != StateView::Ended,
    ensures
        ({
            let published: nat = if event is Published && event->Published_0 is Ok {
                1
            } else {
                0
            };
            &&& (a is Finish ==> a->Finish_0.events_bridged == s.tally() + published)
            &&& (t != StateView::Ended ==> t.tally() == s.tally() + published)
        }),
{
}

/// The summary counts: a run that ends well reports the connection's identity and
/// exactly as many events as were published, its own enrollment included.
#[verifier::spinoff_prover]
pub proof fn the_summary_counts_the_published_events(start: StateView, steps: Seq<ServeStep>)
    requires
        is_run(start, steps),
        start.tally() == 0,
        steps.len() > 0,
    ensures
        steps.last().action is Finish ==> steps.last().action->Finish_0.events_bridged == publishes(
            steps,
        ),
        steps.last().to != StateView::Ended ==> steps.last().to.tally() == publishes(steps),
    decreases steps.len(),
{
    let n = steps.len() as int;
    let last = steps[n - 1];
    let before = steps.drop_last();
    assert(stepped(last.from, last.event, last.to, last.action));
    if n > 1 {
        a_run_begins_with_a_run(start, steps);
        the_summary_counts_the_published_events(start, before);
        assert(before.last() == steps[n - 2]);
    } else {
        assert(publishes(before) == 0);
    }
    if last.from != StateView::Ended {
        a_step_counts_its_publish(last.from, last.event, last.to, last.action);
    }
}

/// A grant answers the message that asked for it, and is then announced: the envelope
/// that goes out correlates to the request's, carries the granted identity and is stamped
/// with the grant's instant, and what is published next names that identity and that
/// envelope.
pub proof fn a_grant_is_answered_and_then_announced(
    frame: InboundFrame,
    grant: Grant,
    msg_id: String,
    asked: StateView,
    first: ServeAction,
    granted: StateView,
    second: ServeAction,
    announced: StateView,
    third: ServeAction,
)
    requires
        stepped(StateView::AwaitingEnroll, ServeEvent::Received(Ok(frame)), asked, first),
        first is Enroll,
        stepped(asked, ServeEvent::Enrolled { outcome: Ok(grant), msg_id }, granted, second),
        stepped(granted, ServeEvent::Sent(Ok(())), announced, third),
    ensures
        frame.envelope.body is Some && frame.envelope.body->0 is EnrollRequest,
        first->Enroll_0 == frame.envelope.body->0->EnrollRequest_0,
        second is Send,
        second->Send_0.correlation_id@ == frame.envelope.msg_id@,
        second->Send_0.msg_id@ == msg_id@,
        second->Send_0.timestamp_ms == grant.issued_at@,
        second->Send_0.protocol_version == grant.chosen_version,
        second->Send_0.body is Some && second->Send_0.body->0 is EnrollGrant,
        second->Send_0.body->0->EnrollGrant_0.agent_id@ == grant.agent_id@,
        third is Publish,
        third->Publish_0@.agent_id == grant.agent_id@,
        third->Publish_0@.msg_id == second->Send_0.msg_id@,
        third->Publish_0@.kind == AgentEventKind::Enrolled,
        third->Publish_0@.attempt_id is None,
{
}

/// What fails ends the service, and nothing else does but a close: a failed receive, send
/// or publish ends it with that failure, a refused enrollment with its refusal, and only a
/// closed session that was being served ends well.
pub proof fn a_failure_ends_the_service(
    s: StateView,
    event: ServeEvent,
    t: StateView,
    a: ServeAction,
)
    requires
        stepped(s, event, t, a),
    ensures
        t == StateView::Ended <==> a is Fail || a is Refuse || a is Finish,
        event is Sent && event->Sent_0 is Err ==> a == ServeAction::Fail(
            TerminatorError::Session(event->Sent_0->Err_0),
        ),
        event is Published && event->Published_0 is Err ==> a == ServeAction::Fail(
            TerminatorError::Bridge(event->Published_0->Err_0),
        ),
        event is Enrolled && event->outcome is Err ==> a is Refuse && a->error
            == TerminatorError::Enroll(event->outcome->Err_0),
        event is Received && event->Received_0 is Err && !(s is Bridging
            && event->Received_0->Err_0 is Closed) ==> a == ServeAction::Fail(
            TerminatorError::Session(event->Received_0->Err_0),
        ),
        a is Finish <==> s is Bridging && event is Received && event->Received_0 is Err
            && event->Received_0->Err_0 is Closed,
        a is Finish ==> a->Finish_0.agent_id is Some && s.identity() == Some(
            a->Finish_0.agent_id->0@,
        ),
        a is Fail ==> event is Received || event is Sent || event is Published,
{
}

/// Every message of a served agent is published if it is one that agents report, and
/// passed over if it is not; either way the service goes on, and after a publish it waits
/// for the next message.
pub proof fn a_served_agent_is_served_on(
    agent_id: Seq<char>,
    n: nat,
    frame: InboundFrame,
    t: StateView,
    a: ServeAction,
)
    requires
        stepped(StateView::Bridging(agent_id, n), ServeEvent::Received(Ok(frame)), t, a),
    ensures
        event_of(agent_id, frame.envelope) is Some <==> a is Publish,
        event_of(agent_id, frame.envelope) is None <==> a is Receive,
        a is Publish ==> a->Publish_0@.msg_id == frame.envelope.msg_id@,
        t.identity() == Some(agent_id),
        t.tally() == n,
        forall|u: StateView, b: ServeAction|
            a is Publish && #[trigger] stepped(t, ServeEvent::Published(Ok(())), u, b) ==> b
                is Receive && u.tally() == n + 1 && u.identity() == Some(agent_id),
{
}

/// An authenticated connection is served at once, with or without an enrollment handler;
/// a token-only one waits for its request where there is a handler, and is refused at once
/// where there is none.
pub proof fn a_connection_starts_by_its_identity(
    identity: PeerIdentity,
    enrolls: bool,
    t: StateView,
    a: ServeAction,
)
    requires
        started(identity, enrolls, t, a),
    ensures
        identity.named() is Some ==> a is Receive && t.identity() == identity.named()
            && t.tally() == 0,
        identity.named() is None ==> t.identity() is None,
        a is Refuse <==> identity.named() is None && !enrolls,
        a is Refuse ==> t == StateView::Ended && a->error is Protocol,
        a is Refuse || a is Receive,
{
}

/// What is odd about a frame is only logged: a repeated enrollment request is passed over,
/// and a message on an unexpected lane is published all the same, as its own kind.
pub proof fn an_oddity_does_not_change_the_service(
    s: StateView,
    frame: InboundFrame,
    t: StateView,
    a: ServeAction,
)
    requires
        stepped(s, ServeEvent::Received(Ok(frame)), t, a),
    ensures
        oddity_of(s, frame) == Some(Oddity::RepeatedEnroll) ==> t == s && a is Receive
            && frame.envelope.body is Some && frame.envelope.body->0 is EnrollRequest,
        oddity_of(s, frame) is Some && oddity_of(s, frame)->0 is UnexpectedLane ==> a is Publish
            && oddity_of(s, frame) == Some(Oddity::UnexpectedLane(a->Publish_0@.kind))
            && frame.channel != a->Publish_0@.kind.lane(),
        a is Publish && frame.channel != a->Publish_0@.kind.lane() ==> oddity_of(s, frame) is Some,
        s is AwaitingEnroll ==> oddity_of(s, frame) is None,
{
}

/// Only a terminator with enrollment lets a token-only connection in, and what it lets it
/// do is enroll: any other first message is refused. Every terminator serves a node under
/// its own name.
pub proof fn a_token_only_connection_may_only_enroll(
    plain: SessionTerminator,
    enrolling: SessionTerminator,
    name: &str,
    node: PeerIdentity,
    refused: (ServeState, ServeAction),
    waiting: (ServeState, ServeAction),
    served: (ServeState, ServeAction),
    frame: InboundFrame,
    next: (ServeState, ServeAction),
)
    requires
        call_ensures(SessionTerminator::new, (), plain),
        call_ensures(SessionTerminator::with_enrollment, (), enrolling),
        call_ensures(PeerIdentity::node, (name,), node),
        call_ensures(SessionTerminator::start, (&plain, &PeerIdentity::Bootstrap), refused),
        call_ensures(SessionTerminator::start, (&enrolling, &PeerIdentity::Bootstrap), waiting),
        call_ensures(SessionTerminator::start, (&plain, &node), served),
        call_ensures(step, (waiting.0, ServeEvent::Received(Ok(frame))), next),
    ensures
        refused.1 is Refuse,
        waiting.1 is Receive,
        served.1 is Receive,
        served.0@.identity() == Some(name@),
        next.1 is Enroll <==> frame.envelope.body is Some && frame.envelope.body->0
            is EnrollRequest,
        next.1 is Enroll || next.1 is Refuse,
        next.0@.identity() is None,
{
}

/// Identities of grants made of different bytes are different.
pub proof fn grant_identities_are_told_apart(a: Seq<u8>, b: Seq<u8>)
    ensures
        grant_msg_id(a) == grant_msg_id(b) <==> a == b,
{
    let n = "grant_"@.len() as int;
    assert(grant_msg_id(a).skip(n) =~= hex_text(a));
    assert(grant_msg_id(b).skip(n) =~= hex_text(b));
    crate::hexadecimal::hex_text_is_injective(a, b);
}

} // verus!
