//! The identity of a connected agent, and how a session fails.
//!
//! Steady-state connections are mutually authenticated: the identity is read from
//! the client certificate, and every event is stamped with it, never with a field
//! of a message. Before enrollment an agent has no certificate and connects
//! token-only; such a connection may send nothing but an enrollment request.
use crate::proto::codec::Channel;
use crate::proto::codec::CodecError;
use crate::proto::v1::Envelope;
use crate::text::IntoText;
use crate::text::labelled;
use vstd::prelude::*;

verus! {

/// The framing protocol identifier offered at connection setup.
pub const WIRE_PROTOCOL_ID: &'static str = "loom/1";

/// The authenticated identity of a connected agent.
#[derive(Debug, Clone, PartialEq, Eq)]
pub enum PeerIdentity {
    /// A token-only connection: the agent has no certificate yet.
    Bootstrap,
    /// An enrolled node whose client certificate names this agent.
    Node {
        /// The identity read from the certificate's subject.
        agent_id: String,
    },
}

impl PeerIdentity {
    /// The agent's identity, as characters.
    pub open spec fn named(self) -> Option<Seq<char>> {
        match self {
            PeerIdentity::Bootstrap => None,
            PeerIdentity::Node { agent_id } => Some(agent_id@),
        }
    }

    /// An authenticated node identity.
    #[must_use]
    pub fn node(agent_id: impl IntoText) -> (id: Self)
        ensures
            id.named() == Some(agent_id.text()),
    {
        PeerIdentity::Node { agent_id: agent_id.into_text() }
    }

    /// The agent's identity, or `None` on a token-only connection.
    #[must_use]
    pub fn agent_id(&self) -> (r: Option<&str>)
        ensures
            match r {
                Some(s) => self.named() == Some(s@),
                None => self.named() is None,
            },
    {
        match self {
            PeerIdentity::Bootstrap => None,
            PeerIdentity::Node { agent_id } => Some(agent_id.as_str()),
        }
    }

    /// Whether this is a token-only connection.
    #[must_use]
    pub fn is_bootstrap(&self) -> (r: bool)
        ensures
            r == (*self is Bootstrap),
            r == (self.named() is None),
    {
        matches!(self, PeerIdentity::Bootstrap)
    }
}

/// One demuxed inbound message: the channel it arrived on and the envelope.
#[derive(Debug, Clone, PartialEq)]
pub struct InboundFrame {
    /// The logical stream the frame arrived on.
    pub channel: Channel,
    /// The decoded wire envelope.
    pub envelope: Envelope,
}

/// A failure sending or receiving on an agent session.
#[derive(Debug)]
#[non_exhaustive]
pub enum SessionError {
    /// A frame failed to encode or decode.
    Codec(CodecError),
    /// The underlying transport failed. The string is its own message.
    WebSocket(String),
    /// The peer closed the connection. A non-empty reason is an application-level
    /// close reason, which the caller may treat as terminal.
    Closed {
        /// The close reason, if the peer supplied a non-empty one.
        reason: Option<String>,
    },
    /// The peer sent something the control channel does not carry.
    Protocol(String),
}

impl SessionError {
    /// Whether a text is what the failure says of itself.
    pub open spec fn is_shown_as(self, text: Seq<char>) -> bool {
        match self {
            SessionError::Codec(e) => exists|inner: Seq<char>| #[trigger]
                e.is_shown_as(inner) && text == "codec: "@ + inner,
            SessionError::WebSocket(why) => text == "websocket: "@ + why@,
            SessionError::Closed { reason } => text == (match reason {
                Some(reason) => "agent closed the session: "@ + reason@,
                None => "agent closed the session"@,
            }),
            SessionError::Protocol(why) => text == "protocol violation: "@ + why@,
        }
    }

    /// What the failure says of itself.
    pub fn to_string(&self) -> (s: String)
        ensures
            self.is_shown_as(s@),
    {
        match self {
            SessionError::Codec(e) => {
                let inner = e.to_string();
                proof {
                    assert(e.is_shown_as(inner@));
                }
                labelled("codec: ", inner.as_str())
            },
            SessionError::WebSocket(why) => labelled("websocket: ", why.as_str()),
            SessionError::Closed { reason } => match reason {
                Some(reason) => labelled("agent closed the session: ", reason.as_str()),
                None => "agent closed the session".to_owned(),
            },
            SessionError::Protocol(why) => labelled("protocol violation: ", why.as_str()),
        }
    }
}

impl SessionError {
    /// Whether this is the clean end of a session: closed with no reason.
    #[must_use]
    pub fn is_clean_close(&self) -> (r: bool)
        ensures
            r == (*self is Closed && self->reason is None),
    {
        matches!(self, SessionError::Closed { reason: None })
    }
}

/// An identity made of a name tells that name and is no token-only one; a token-only one
/// alone tells none.
pub proof fn an_identity_tells_its_name(
    name: &str,
    id: PeerIdentity,
    other: PeerIdentity,
    told: Option<&str>,
    told_of_other: Option<&str>,
    anonymous: bool,
)
    requires
        call_ensures(PeerIdentity::node, (name,), id),
        call_ensures(PeerIdentity::agent_id, (&id,), told),
        call_ensures(PeerIdentity::agent_id, (&other,), told_of_other),
        call_ensures(PeerIdentity::is_bootstrap, (&other,), anonymous),
    ensures
        told is Some,
        (told->0)@ == name@,
        id is Node,
        anonymous <==> told_of_other is None,
        other is Node ==> told_of_other is Some && (told_of_other->0)@ == (other->agent_id)@,
{
}

} // verus!
