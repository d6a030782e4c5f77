//! The decoded agent message that is republished on the bus, under the `agent`
//! family.
//!
//! Each event is stamped with the connection's authenticated identity, never with a
//! field of the message, so a message can never speak for another agent. Events
//! serialize to compact JSON: the wire stays binary, the bus stays inspectable.
use crate::bus::message::bytes_of;
use crate::bus::message::optional_text;
use crate::bus::message::Message;
use crate::bus::message::MessageView;
use crate::bus::topic::a_family_covers_what_follows_its_dot;
use crate::bus::topic::covering;
use crate::bus::topic::Topic;
use crate::hexadecimal::hex_digit;
use crate::proto::codec::Channel;
use crate::proto::v1::Body;
use crate::proto::v1::Envelope;
use crate::text::IntoText;
use vstd::prelude::*;
use vstd::utf8::encode_utf8;
use vstd::utf8::encode_utf8_decode_utf8;

verus! {

/// The failure of the JSON codec (`serde_json::Error`), carried through unopened.
#[verifier::external_type_specification]
#[verifier::external_body]
pub struct ExJsonError(serde_json::Error);

/// A character within a JSON string literal: quote, backslash and the control
/// characters are escaped, the common ones by a letter and the others by their code.
pub open spec fn json_char(c: char) -> Seq<char> {
    match c {
        '"' => seq!['\\', '"'],
        '\\' => seq!['\\', '\\'],
        '\u{8}' => seq!['\\', 'b'],
        '\t' => seq!['\\', 't'],
        '\n' => seq!['\\', 'n'],
        '\u{c}' => seq!['\\', 'f'],
        '\r' => seq!['\\', 'r'],
        _ => if ' ' <= c {
            seq![c]
        } else {
            let code = c as nat;
            seq!['\\', 'u', '0', '0', hex_digit(code / 16), hex_digit(code % 16)]
        },
    }
}

/// The characters of a string within a JSON string literal.
pub open spec fn json_chars(s: Seq<char>) -> Seq<char>
    decreases s.len(),
{
    if s.len() == 0 {
        Seq::empty()
    } else {
        json_char(s[0]) + json_chars(s.skip(1))
    }
}

/// A string as a JSON string literal: its characters, escaped, between quotes.
pub open spec fn json_string_of(s: Seq<char>) -> Seq<char> {
    seq!['"'] + json_chars(s) + seq!['"']
}

/// Writes a string as a JSON string literal (`serde_json::to_string` of a `&str`,
/// which cannot fail): between quotes, with quote, backslash and the characters
/// below a space escaped and every other as it is.
#[verifier::external_body]
fn json_string(s: &str) -> (r: Result<String, serde_json::Error>)
    ensures
        r is Ok,
        r->Ok_0@ == json_string_of(s@),
{
    serde_json::to_string(s)
}

/// The kind of an [`AgentEvent`]: one variant per bridged agent message.
#[derive(Debug, Clone, Copy, PartialEq, Eq, Structural)]
pub enum AgentEventKind {
    /// A node completed enrollment and holds a signed certificate.
    Enrolled,
    /// Presence and health (heartbeat lane).
    Heartbeat,
    /// Full state resync after a reconnect (control lane).
    StateReport,
    /// The agent accepted a job offer.
    JobAccept,
    /// The agent rejected a job offer.
    JobReject,
    /// Image or weights preparation progress.
    JobPrepareProgress,
    /// The workload started running.
    JobStarted,
    /// The attempt completed.
    JobCompleted,
    /// The attempt failed.
    JobFailed,
    /// A workload log chunk (log lane).
    Log,
}

impl AgentEventKind {
    /// The topic leaf under the `agent` family, which is also the kind's name in
    /// JSON.
    pub open spec fn leaf(self) -> Seq<char> {
        match self {
            AgentEventKind::Enrolled => "enrolled"@,
            AgentEventKind::Heartbeat => "heartbeat"@,
            AgentEventKind::StateReport => "state_report"@,
            AgentEventKind::JobAccept => "job_accept"@,
            AgentEventKind::JobReject => "job_reject"@,
            AgentEventKind::JobPrepareProgress => "job_prepare_progress"@,
            AgentEventKind::JobStarted => "job_started"@,
            AgentEventKind::JobCompleted => "job_completed"@,
            AgentEventKind::JobFailed => "job_failed"@,
            AgentEventKind::Log => "log"@,
        }
    }

    /// The topic leaf under the `agent` family, such as `heartbeat` in
    /// `agent.heartbeat`.
    #[must_use]
    pub fn subject(self) -> (s: &'static str)
        ensures
            s@ == self.leaf(),
    {
        match self {
            AgentEventKind::Enrolled => "enrolled",
            AgentEventKind::Heartbeat => "heartbeat",
            AgentEventKind::StateReport => "state_report",
            AgentEventKind::JobAccept => "job_accept",
            AgentEventKind::JobReject => "job_reject",
            AgentEventKind::JobPrepareProgress => "job_prepare_progress",
            AgentEventKind::JobStarted => "job_started",
            AgentEventKind::JobCompleted => "job_completed",
            AgentEventKind::JobFailed => "job_failed",
            AgentEventKind::Log => "log",
        }
    }

    /// The wire lane this kind is expected to arrive on.
    pub open spec fn lane(self) -> Channel {
        match self {
            AgentEventKind::Heartbeat => Channel::Heartbeat,
            AgentEventKind::Log => Channel::Log,
            _ => Channel::Control,
        }
    }

    /// The wire lane this kind is expected to arrive on. Everything but heartbeats
    /// and logs rides the control lane.
    #[must_use]
    pub fn expected_channel(self) -> (c: Channel)
        ensures
            c == self.lane(),
    {
        match self {
            AgentEventKind::Heartbeat => Channel::Heartbeat,
            AgentEventKind::Log => Channel::Log,
            _ => Channel::Control,
        }
    }
}

/// What an agent event holds, as values.
pub struct EventView {
    /// The authenticated identity it is stamped with.
    pub agent_id: Seq<char>,
    /// The kind of message.
    pub kind: AgentEventKind,
    /// The identity of the envelope it came in.
    pub msg_id: Seq<char>,
    /// The message it answers, or empty.
    pub correlation_id: Seq<char>,
    /// The attempt it concerns.
    pub attempt_id: Option<Seq<char>>,
}

/// The event that a body stands for and the attempt it concerns, or `None` for a
/// body that is not bridged: those that the gateway sends, enrollment, and
/// certificate rotation.
pub open spec fn bridged(body: Body) -> Option<(AgentEventKind, Option<Seq<char>>)> {
    match body {
        Body::Heartbeat(_) => Some((AgentEventKind::Heartbeat, None)),
        Body::StateReport(_) => Some((AgentEventKind::StateReport, None)),
        Body::JobAccept(m) => Some((AgentEventKind::JobAccept, Some(m.attempt_id@))),
        Body::JobReject(m) => Some((AgentEventKind::JobReject, Some(m.attempt_id@))),
        Body::JobPrepareProgress(m) => Some(
            (AgentEventKind::JobPrepareProgress, Some(m.attempt_id@)),
        ),
        Body::JobStarted(m) => Some((AgentEventKind::JobStarted, Some(m.attempt_id@))),
        Body::JobCompleted(m) => Some((AgentEventKind::JobCompleted, Some(m.attempt_id@))),
        Body::JobFailed(m) => Some((AgentEventKind::JobFailed, Some(m.attempt_id@))),
        Body::LogChunk(m) => Some((AgentEventKind::Log, Some(m.attempt_id@))),
        _ => None,
    }
}

/// The event of an envelope that arrived from an agent, if it is bridged.
pub open spec fn event_of(agent_id: Seq<char>, envelope: Envelope) -> Option<EventView> {
    match envelope.body {
        None => None,
        Some(body) => match bridged(body) {
            None => None,
            Some((kind, attempt_id)) => Some(
                EventView {
                    agent_id,
                    kind,
                    msg_id: envelope.msg_id@,
                    correlation_id: envelope.correlation_id@,
                    attempt_id,
                },
            ),
        },
    }
}

/// What stands of an event's attempt in its JSON.
pub open spec fn attempt_json(attempt_id: Option<Seq<char>>) -> Seq<char> {
    match attempt_id {
        Some(id) => json_string_of(id),
        None => "null"@,
    }
}

/// An event as compact JSON: an object of its fields in order.
pub open spec fn event_json(e: EventView) -> Seq<char> {
    "{\"agent_id\":"@ + json_string_of(e.agent_id) + ",\"kind\":"@ + json_string_of(e.kind.leaf())
        + ",\"msg_id\":"@ + json_string_of(e.msg_id) + ",\"correlation_id\":"@ + json_string_of(
        e.correlation_id,
    ) + ",\"attempt_id\":"@ + attempt_json(e.attempt_id) + "}"@
}

/// The bus message of an event: its JSON on its topic, under a key of its agent and
/// message, so that a redelivered event is recognizably the same.
pub open spec fn event_message(e: EventView) -> MessageView {
    MessageView {
        topic: "agent."@ + e.kind.leaf(),
        payload: encode_utf8(event_json(e)),
        dedup_key: Some("agent."@ + e.agent_id + "."@ + e.msg_id),
    }
}

/// A decoded agent message, ready to publish on the bus.
#[derive(Debug, Clone, PartialEq, Eq)]
pub struct AgentEvent {
    /// The connection's authenticated identity.
    pub agent_id: String,
    /// Which kind of message this is.
    pub kind: AgentEventKind,
    /// The originating envelope's message identity.
    pub msg_id: String,
    /// The envelope's correlation identity, if it answered a prior message.
    pub correlation_id: String,
    /// The attempt this event concerns, for the job and log messages.
    pub attempt_id: Option<String>,
}

impl View for AgentEvent {
    type V = EventView;

    open spec fn view(&self) -> EventView {
        EventView {
            agent_id: self.agent_id@,
            kind: self.kind,
            msg_id: self.msg_id@,
            correlation_id: self.correlation_id@,
            attempt_id: optional_text(self.attempt_id),
        }
    }
}

impl AgentEvent {
    /// The event that announces a node whose certificate was issued.
    #[must_use]
    pub fn enrolled(agent_id: impl IntoText, msg_id: impl IntoText) -> (e: Self)
        ensures
            e@ == (EventView {
                agent_id: agent_id.text(),
                kind: AgentEventKind::Enrolled,
                msg_id: msg_id.text(),
                correlation_id: Seq::empty(),
                attempt_id: None,
            }),
    {
        AgentEvent {
            agent_id: agent_id.into_text(),
            kind: AgentEventKind::Enrolled,
            msg_id: msg_id.into_text(),
            correlation_id: String::new(),
            attempt_id: None,
        }
    }

    /// Maps an envelope arriving from `agent_id` to a bridged event, or `None` for a
    /// body that is not bridged.
    #[must_use]
    pub fn from_envelope(agent_id: &str, envelope: &Envelope) -> (r: Option<Self>)
        ensures
            match (r, event_of(agent_id@, *envelope)) {
                (Some(e), Some(v)) => e@ == v,
                (None, None) => true,
                _ => false,
            },
    {
        let body = match &envelope.body {
            Some(body) => body,
            None => {
                return None;
            },
        };
        let (kind, attempt_id) = match body {
            Body::Heartbeat(_) => (AgentEventKind::Heartbeat, None),
            Body::StateReport(_) => (AgentEventKind::StateReport, None),
            Body::JobAccept(m) => (AgentEventKind::JobAccept, Some(m.attempt_id.clone())),
            Body::JobReject(m) => (AgentEventKind::JobReject, Some(m.attempt_id.clone())),
            Body::JobPrepareProgress(m) => (
                AgentEventKind::JobPrepareProgress,
                Some(m.attempt_id.clone()),
            ),
            Body::JobStarted(m) => (AgentEventKind::JobStarted, Some(m.attempt_id.clone())),
            Body::JobCompleted(m) => (AgentEventKind::JobCompleted, Some(m.attempt_id.clone())),
            Body::JobFailed(m) => (AgentEventKind::JobFailed, Some(m.attempt_id.clone())),
            Body::LogChunk(m) => (AgentEventKind::Log, Some(m.attempt_id.clone())),
            Body::EnrollRequest(_)
            | Body::EnrollGrant(_)
            | Body::ReEnroll(_)
            | Body::RotateCert(_)
            | Body::JobOffer(_)
            | Body::JobAbort(_) => {
                return None;
            },
        };
        Some(
            AgentEvent {
                agent_id: agent_id.to_owned(),
                kind,
                msg_id: envelope.msg_id.clone(),
                correlation_id: envelope.correlation_id.clone(),
                attempt_id,
            },
        )
    }

    /// The bus topic this event publishes under: `agent.<subject>`.
    #[must_use]
    pub fn topic(&self) -> (t: Topic)
        ensures
            t@ == "agent."@ + self.kind.leaf(),
    {
        let mut s = "agent.".to_owned();
        s.append(self.kind.subject());
        Topic::new(s)
    }

    /// Renders this event as a bus message: JSON payload on its topic, with a dedup
    /// key of its agent and message.
    ///
    /// # Errors
    /// None is expected: the JSON codec cannot fail on strings.
    pub fn to_message(&self) -> (r: Result<Message, serde_json::Error>)
        ensures
            r is Ok,
            r->Ok_0@ == event_message(self@),
    {
        let agent_id = match json_string(self.agent_id.as_str()) {
            Ok(s) => s,
            Err(e) => {
                return Err(e);
            },
        };
        let kind = match json_string(self.kind.subject()) {
            Ok(s) => s,
            Err(e) => {
                return Err(e);
            },
        };
        let msg_id = match json_string(self.msg_id.as_str()) {
            Ok(s) => s,
            Err(e) => {
                return Err(e);
            },
        };
        let correlation_id = match json_string(self.correlation_id.as_str()) {
            Ok(s) => s,
            Err(e) => {
                return Err(e);
            },
        };
        let attempt_id = match &self.attempt_id {
            None => "null".to_owned(),
            Some(id) => match json_string(id.as_str()) {
                Ok(s) => s,
                Err(e) => {
                    return Err(e);
                },
            },
        };
        let mut json = "{\"agent_id\":".to_owned();
        json.append(agent_id.as_str());
        json.append(",\"kind\":");
        json.append(kind.as_str());
        json.append(",\"msg_id\":");
        json.append(msg_id.as_str());
        json.append(",\"correlation_id\":");
        json.append(correlation_id.as_str());
        json.append(",\"attempt_id\":");
        json.append(attempt_id.as_str());
        json.append("}");
        let mut key = "agent.".to_owned();
        key.append(self.agent_id.as_str());
        key.append(".");
        key.append(self.msg_id.as_str());
        Ok(Message::new(self.topic(), bytes_of(json.as_str())).with_dedup_key(key))
    }
}

/// Every event lands on the agent family: whoever listens to `agent` hears it.
pub proof fn every_event_lands_on_the_agent_family(e: EventView)
    ensures
        covering("agent"@, event_message(e).topic),
{
    reveal_strlit("agent");
    reveal_strlit("agent.");
    assert("agent."@ =~= "agent"@ + seq!['.']);
    a_family_covers_what_follows_its_dot("agent"@, e.kind.leaf());
}

/// An escaped character ends where it ends: what it is followed by does not change
/// which character it is.
proof fn json_char_is_a_prefix_code(a: char, x: Seq<char>, b: char, y: Seq<char>)
    requires
        json_char(a) + x == json_char(b) + y,
    ensures
        a == b,
        x == y,
{
    let p = json_char(a) + x;
    let q = json_char(b) + y;
    assert(p[0] == json_char(a)[0] && q[0] == json_char(b)[0]);
    if json_char(a).len() >= 2 && json_char(b).len() >= 2 {
        assert(p[1] == json_char(a)[1] && q[1] == json_char(b)[1]);
    }
    if json_char(a).len() == 6 && json_char(b).len() == 6 {
        assert(p[4] == json_char(a)[4] && q[4] == json_char(b)[4]);
        assert(p[5] == json_char(a)[5] && q[5] == json_char(b)[5]);
    }
    assert(a == b);
    assert(p.skip(json_char(a).len() as int) =~= x);
    assert(q.skip(json_char(b).len() as int) =~= y);
}

proof fn json_chars_are_a_prefix_code(a: Seq<char>, x: Seq<char>, b: Seq<char>, y: Seq<char>)
    requires
        json_chars(a) + (seq!['"'] + x) == json_chars(b) + (seq!['"'] + y),
    ensures
        a == b,
        x == y,
    decreases a.len(),
{
    let p = json_chars(a) + (seq!['"'] + x);
    let q = json_chars(b) + (seq!['"'] + y);
    if a.len() > 0 && b.len() > 0 {
        let rest_a = json_chars(a.skip(1)) + (seq!['"'] + x);
        let rest_b = json_chars(b.skip(1)) + (seq!['"'] + y);
        assert(p =~= json_char(a[0]) + rest_a);
        assert(q =~= json_char(b[0]) + rest_b);
        json_char_is_a_prefix_code(a[0], rest_a, b[0], rest_b);
        json_chars_are_a_prefix_code(a.skip(1), x, b.skip(1), y);
        assert(a =~= seq![a[0]] + a.skip(1));
        assert(b =~= seq![b[0]] + b.skip(1));
    } else if a.len() > 0 {
        assert(p[0] == json_char(a[0])[0]);
        assert(q[0] == '"');
    } else if b.len() > 0 {
        assert(q[0] == json_char(b[0])[0]);
        assert(p[0] == '"');
    } else {
        assert(p.skip(1) =~= x);
        assert(q.skip(1) =~= y);
    }
}

/// A string literal is the literal of one string, whatever follows it.
pub proof fn a_json_string_is_of_one_string(
    a: Seq<char>,
    x: Seq<char>,
    b: Seq<char>,
    y: Seq<char>,
)
    requires
        json_string_of(a) + x == json_string_of(b) + y,
    ensures
        a == b,
        x == y,
{
    let p = json_string_of(a) + x;
    let q = json_string_of(b) + y;
    assert(p.skip(1) =~= json_chars(a) + (seq!['"'] + x));
    assert(q.skip(1) =~= json_chars(b) + (seq!['"'] + y));
    json_chars_are_a_prefix_code(a, x, b, y);
}

proof fn leaves_tell_kinds_apart(a: AgentEventKind, b: AgentEventKind)
    requires
        a.leaf() == b.leaf(),
    ensures
        a == b,
{
    reveal_strlit("enrolled");
    reveal_strlit("heartbeat");
    reveal_strlit("state_report");
    reveal_strlit("job_accept");
    reveal_strlit("job_reject");
    reveal_strlit("job_prepare_progress");
    reveal_strlit("job_started");
    reveal_strlit("job_completed");
    reveal_strlit("job_failed");
    reveal_strlit("log");
    let x = a.leaf();
    let y = b.leaf();
    assert(x.len() == y.len());
    assert(x[0] == y[0]);
    if x.len() > 4 {
        assert(x[4] == y[4]);
    }
    if x.len() > 6 {
        assert(x[6] == y[6]);
    }
}

proof fn regrouped(before: Seq<char>, name: Seq<char>, value: Seq<char>, after: Seq<char>)
    ensures
        before + name + value + after == before + (name + (value + after)),
{
    assert(before + name + value + after =~= before + (name + (value + after)));
}

/// The same JSON, a member and then the rest.
spec fn nested_json(e: EventView) -> Seq<char> {
    "{\"agent_id\":"@ + (json_string_of(e.agent_id) + (",\"kind\":"@ + (json_string_of(
        e.kind.leaf(),
    ) + (",\"msg_id\":"@ + (json_string_of(e.msg_id) + (",\"correlation_id\":"@ + (json_string_of(
        e.correlation_id,
    ) + (",\"attempt_id\":"@ + (attempt_json(e.attempt_id) + "}"@)))))))))
}

proof fn the_json_nests(e: EventView)
    ensures
        event_json(e) == nested_json(e),
{
    let v0 = json_string_of(e.agent_id);
    let v1 = json_string_of(e.kind.leaf());
    let v2 = json_string_of(e.msg_id);
    let v3 = json_string_of(e.correlation_id);
    let v4 = attempt_json(e.attempt_id);
    let p0 = Seq::<char>::empty() + "{\"agent_id\":"@ + v0;
    let p1 = p0 + ",\"kind\":"@ + v1;
    let p2 = p1 + ",\"msg_id\":"@ + v2;
    let p3 = p2 + ",\"correlation_id\":"@ + v3;
    let t4 = ",\"attempt_id\":"@ + (v4 + "}"@);
    let t3 = ",\"correlation_id\":"@ + (v3 + t4);
    let t2 = ",\"msg_id\":"@ + (v2 + t3);
    let t1 = ",\"kind\":"@ + (v1 + t2);
    assert(Seq::<char>::empty() + "{\"agent_id\":"@ =~= "{\"agent_id\":"@);
    regrouped(p3, ",\"attempt_id\":"@, v4, "}"@);
    regrouped(p2, ",\"correlation_id\":"@, v3, t4);
    regrouped(p1, ",\"msg_id\":"@, v2, t3);
    regrouped(p0, ",\"kind\":"@, v1, t2);
    regrouped(Seq::empty(), "{\"agent_id\":"@, v0, t1);
    assert(Seq::empty() + ("{\"agent_id\":"@ + (v0 + t1)) =~= "{\"agent_id\":"@ + (v0 + t1));
}

proof fn a_member_is_told(
    name: Seq<char>,
    a: Seq<char>,
    x: Seq<char>,
    b: Seq<char>,
    y: Seq<char>,
)
    requires
        name + (json_string_of(a) + x) == name + (json_string_of(b) + y),
    ensures
        a == b,
        x == y,
{
    let p = json_string_of(a) + x;
    let q = json_string_of(b) + y;
    assert((name + p).skip(name.len() as int) =~= p);
    assert((name + q).skip(name.len() as int) =~= q);
    a_json_string_is_of_one_string(a, x, b, y);
}

proof fn the_last_member_is_told(a: Option<Seq<char>>, b: Option<Seq<char>>)
    requires
        ",\"attempt_id\":"@ + (attempt_json(a) + "}"@) == ",\"attempt_id\":"@ + (attempt_json(b)
            + "}"@),
    ensures
        a == b,
{
    let name = ",\"attempt_id\":"@;
    let p = attempt_json(a) + "}"@;
    let q = attempt_json(b) + "}"@;
    assert((name + p).skip(name.len() as int) =~= p);
    assert((name + q).skip(name.len() as int) =~= q);
    reveal_strlit("null");
    match (a, b) {
        (Some(x), Some(y)) => {
            a_json_string_is_of_one_string(x, "}"@, y, "}"@);
        },
        (Some(x), None) => {
            assert(p[0] == '"' && q[0] == 'n');
        },
        (None, Some(y)) => {
            assert(p[0] == 'n' && q[0] == '"');
        },
        (None, None) => {},
    }
}

/// The JSON of an event gives the event back: it is the JSON of no other.
pub proof fn an_event_is_told_by_its_json(a: EventView, b: EventView)
    requires
        event_json(a) == event_json(b),
    ensures
        a == b,
{
    the_json_nests(a);
    the_json_nests(b);
    let a4 = ",\"attempt_id\":"@ + (attempt_json(a.attempt_id) + "}"@);
    let b4 = ",\"attempt_id\":"@ + (attempt_json(b.attempt_id) + "}"@);
    let a3 = ",\"correlation_id\":"@ + (json_string_of(a.correlation_id) + a4);
    let b3 = ",\"correlation_id\":"@ + (json_string_of(b.correlation_id) + b4);
    let a2 = ",\"msg_id\":"@ + (json_string_of(a.msg_id) + a3);
    let b2 = ",\"msg_id\":"@ + (json_string_of(b.msg_id) + b3);
    let a1 = ",\"kind\":"@ + (json_string_of(a.kind.leaf()) + a2);
    let b1 = ",\"kind\":"@ + (json_string_of(b.kind.leaf()) + b2);
    a_member_is_told("{\"agent_id\":"@, a.agent_id, a1, b.agent_id, b1);
    a_member_is_told(",\"kind\":"@, a.kind.leaf(), a2, b.kind.leaf(), b2);
    a_member_is_told(",\"msg_id\":"@, a.msg_id, a3, b.msg_id, b3);
    a_member_is_told(",\"correlation_id\":"@, a.correlation_id, a4, b.correlation_id, b4);
    the_last_member_is_told(a.attempt_id, b.attempt_id);
    leaves_tell_kinds_apart(a.kind, b.kind);
}

/// A bus message gives its event back: the payload of an event is the payload of no
/// other.
pub proof fn an_event_is_told_by_its_payload(a: EventView, b: EventView)
    requires
        event_message(a).payload == event_message(b).payload,
    ensures
        a == b,
{
    encode_utf8_decode_utf8(event_json(a));
    encode_utf8_decode_utf8(event_json(b));
    an_event_is_told_by_its_json(a, b);
}

/// A bridged event carries the identity of its connection and nothing that the
/// envelope says of who sent it.
pub proof fn identity_comes_from_the_connection(agent_id: Seq<char>, envelope: Envelope)
    ensures
        event_of(agent_id, envelope) is Some ==> event_of(agent_id, envelope)->0.agent_id
            == agent_id,
{
}

/// The kind of a bridged event tells the kind of message: two bodies of different message
/// types are never bridged to events of one kind.
pub proof fn the_kind_tells_the_message(a: Body, b: Body)
    requires
        bridged(a) is Some,
        bridged(b) is Some,
        (bridged(a)->0).0 == (bridged(b)->0).0,
    ensures
        a is Heartbeat <==> b is Heartbeat,
        a is StateReport <==> b is StateReport,
        a is JobAccept <==> b is JobAccept,
        a is JobReject <==> b is JobReject,
        a is JobPrepareProgress <==> b is JobPrepareProgress,
        a is JobStarted <==> b is JobStarted,
        a is JobCompleted <==> b is JobCompleted,
        a is JobFailed <==> b is JobFailed,
        a is LogChunk <==> b is LogChunk,
{
}

/// Each message is published on the topic of its own name and no other, under the
/// identity of its connection: what [`AgentEvent::from_envelope`] makes of it,
/// [`AgentEvent::to_message`] puts there.
pub proof fn a_message_is_published_on_the_topic_of_its_name(
    agent_id: &str,
    envelope: Envelope,
    body: Body,
    r: Option<AgentEvent>,
    m: Result<Message, serde_json::Error>,
)
    requires
        envelope.body == Some(body),
        call_ensures(AgentEvent::from_envelope, (agent_id, &envelope), r),
        r is Some ==> call_ensures(AgentEvent::to_message, (&r->0,), m),
    ensures
        body is Heartbeat ==> r is Some && m->Ok_0@.topic == "agent.heartbeat"@,
        body is StateReport ==> r is Some && m->Ok_0@.topic == "agent.state_report"@,
        body is JobAccept ==> r is Some && m->Ok_0@.topic == "agent.job_accept"@,
        body is JobReject ==> r is Some && m->Ok_0@.topic == "agent.job_reject"@,
        body is JobPrepareProgress ==> r is Some && m->Ok_0@.topic == "agent.job_prepare_progress"@,
        body is JobStarted ==> r is Some && m->Ok_0@.topic == "agent.job_started"@,
        body is JobCompleted ==> r is Some && m->Ok_0@.topic == "agent.job_completed"@,
        body is JobFailed ==> r is Some && m->Ok_0@.topic == "agent.job_failed"@,
        body is LogChunk ==> r is Some && m->Ok_0@.topic == "agent.log"@,
        r is Some ==> r->0@.agent_id == agent_id@ && r->0@.msg_id == envelope.msg_id@
            && r->0@.correlation_id == envelope.correlation_id@,
{
    reveal_strlit("agent.");
    reveal_strlit("heartbeat");
    reveal_strlit("agent.heartbeat");
    assert("agent."@ + "heartbeat"@ =~= "agent.heartbeat"@);
    reveal_strlit("state_report");
    reveal_strlit("agent.state_report");
    assert("agent."@ + "state_report"@ =~= "agent.state_report"@);
    reveal_strlit("job_accept");
    reveal_strlit("agent.job_accept");
    assert("agent."@ + "job_accept"@ =~= "agent.job_accept"@);
    reveal_strlit("job_reject");
    reveal_strlit("agent.job_reject");
    assert("agent."@ + "job_reject"@ =~= "agent.job_reject"@);
    reveal_strlit("job_prepare_progress");
    reveal_strlit("agent.job_prepare_progress");
    assert("agent."@ + "job_prepare_progress"@ =~= "agent.job_prepare_progress"@);
    reveal_strlit("job_started");
    reveal_strlit("agent.job_started");
    assert("agent."@ + "job_started"@ =~= "agent.job_started"@);
    reveal_strlit("job_completed");
    reveal_strlit("agent.job_completed");
    assert("agent."@ + "job_completed"@ =~= "agent.job_completed"@);
    reveal_strlit("job_failed");
    reveal_strlit("agent.job_failed");
    assert("agent."@ + "job_failed"@ =~= "agent.job_failed"@);
    reveal_strlit("log");
    reveal_strlit("agent.log");
    assert("agent."@ + "log"@ =~= "agent.log"@);
}

/// An event concerns the attempt that its message names, and none where the message is
/// about the node as a whole.
pub proof fn an_event_concerns_the_attempt_of_its_message(
    agent_id: &str,
    envelope: Envelope,
    body: Body,
    r: Option<AgentEvent>,
)
    requires
        envelope.body == Some(body),
        call_ensures(AgentEvent::from_envelope, (agent_id, &envelope), r),
    ensures
        body is Heartbeat ==> r is Some && r->0@.attempt_id is None,
        body is StateReport ==> r is Some && r->0@.attempt_id is None,
        body is JobAccept ==> r is Some && r->0@.attempt_id == Some(body->JobAccept_0.attempt_id@),
        body is JobReject ==> r is Some && r->0@.attempt_id == Some(body->JobReject_0.attempt_id@),
        body is JobPrepareProgress ==> r is Some && r->0@.attempt_id == Some(
            body->JobPrepareProgress_0.attempt_id@,
        ),
        body is JobStarted ==> r is Some && r->0@.attempt_id == Some(
            body->JobStarted_0.attempt_id@,
        ),
        body is JobCompleted ==> r is Some && r->0@.attempt_id == Some(
            body->JobCompleted_0.attempt_id@,
        ),
        body is JobFailed ==> r is Some && r->0@.attempt_id == Some(body->JobFailed_0.attempt_id@),
        body is LogChunk ==> r is Some && r->0@.attempt_id == Some(body->LogChunk_0.attempt_id@),
{
}

/// Nothing that the gateway itself sends, and nothing of enrollment or rotation, is
/// bridged; nor is an envelope without a body.
pub proof fn only_what_agents_report_is_bridged(
    agent_id: &str,
    envelope: Envelope,
    r: Option<AgentEvent>,
)
    requires
        call_ensures(AgentEvent::from_envelope, (agent_id, &envelope), r),
    ensures
        envelope.body is None ==> r is None,
        envelope.body is Some && (envelope.body->0 is EnrollRequest
            || envelope.body->0 is EnrollGrant || envelope.body->0 is ReEnroll
            || envelope.body->0 is RotateCert
            || envelope.body->0 is JobOffer || envelope.body->0 is JobAbort) ==> r is None,
{
}

/// Heartbeats and logs ride lanes of their own, and every other message the control lane:
/// no two lanes carry one kind of message.
pub proof fn heartbeats_and_logs_ride_their_own_lanes(body: Body, lane: Channel)
    requires
        bridged(body) is Some,
        call_ensures(AgentEventKind::expected_channel, ((bridged(body)->0).0,), lane),
    ensures
        lane == Channel::Heartbeat <==> body is Heartbeat,
        lane == Channel::Log <==> body is LogChunk,
        lane != Channel::Metering,
{
}

/// A redelivered message is recognizably the same, whatever it says: its key is made of
/// its agent and its identity, and one agent's messages of different identities have
/// different keys.
pub proof fn the_dedup_key_identifies_an_agents_message(a: EventView, b: EventView)
    ensures
        a.agent_id == b.agent_id ==> (event_message(a).dedup_key == event_message(b).dedup_key
            <==> a.msg_id == b.msg_id),
        event_message(a).dedup_key is Some,
        event_message(a).topic == event_message(b).topic ==> a.kind == b.kind,
{
    if a.agent_id == b.agent_id && event_message(a).dedup_key == event_message(b).dedup_key {
        let head = "agent."@ + a.agent_id + "."@;
        assert(event_message(a).dedup_key->0.skip(head.len() as int) =~= a.msg_id);
        assert(event_message(b).dedup_key->0.skip(head.len() as int) =~= b.msg_id);
    }
    if event_message(a).topic == event_message(b).topic {
        let head = "agent."@;
        assert(event_message(a).topic.skip(head.len() as int) =~= a.kind.leaf());
        assert(event_message(b).topic.skip(head.len() as int) =~= b.kind.leaf());
        leaves_tell_kinds_apart(a.kind, b.kind);
    }
}

/// The announcement of an enrolled node is told from every bridged message, and says
/// nothing but who was enrolled and in which message.
pub proof fn an_enrollment_is_announced_as_one(
    agent_id: String,
    msg_id: String,
    body: Body,
    e: AgentEvent,
    m: Result<Message, serde_json::Error>,
)
    requires
        call_ensures(AgentEvent::enrolled, (agent_id, msg_id), e),
        call_ensures(AgentEvent::to_message, (&e,), m),
    ensures
        m->Ok_0@.topic == "agent.enrolled"@,
        e@.agent_id == agent_id@,
        e@.msg_id == msg_id@,
        e@.attempt_id is None,
        e@.correlation_id.len() == 0,
        bridged(body) is Some ==> (bridged(body)->0).0 != e@.kind,
{
    reveal_strlit("agent.");
    reveal_strlit("enrolled");
    reveal_strlit("agent.enrolled");
    assert("agent."@ + "enrolled"@ =~= "agent.enrolled"@);
}

} // verus!
