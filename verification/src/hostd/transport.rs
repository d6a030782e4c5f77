//! The agent's control channel: how it fails, and what the agent makes of each
//! message that the stream yields.
use crate::proto::codec::MAX_FRAME_LEN;
use crate::proto::codec::a_tagged_frame_reads_back;
use crate::proto::codec::decode_message;
use crate::proto::codec::tagged;
use crate::proto::codec::untagged;
use crate::proto::codec::Channel;
use crate::proto::codec::CodecError;
use crate::proto::receive::inbound;
use crate::proto::receive::reason_of;
use crate::proto::receive::trailing_bytes;
use crate::proto::receive::unexpected_text;
use crate::proto::receive::Inbound;
use crate::proto::receive::WsEvent;
use crate::proto::v1::Envelope;
use crate::text::labelled;
use prost::DecodeError;
use vstd::prelude::*;

verus! {

/// Errors from sending or receiving on the control channel.
#[derive(Debug)]
pub enum TransportError {
    /// A frame failed to encode or decode.
    Codec(CodecError),
    /// The underlying WebSocket failed. The string is its own message.
    Ws(String),
    /// A connection could not be established.
    Connect(String),
    /// The peer closed the connection. A non-empty reason is an application-level
    /// close reason, which the caller may treat as terminal.
    Closed {
        /// The close reason, if the peer supplied a non-empty one.
        reason: Option<String>,
    },
    /// The peer sent something the control channel does not carry.
    Protocol(String),
}

impl TransportError {
    /// Whether a text is what the failure says of itself.
    pub open spec fn is_shown_as(self, text: Seq<char>) -> bool {
        match self {
            TransportError::Codec(e) => exists|inner: Seq<char>| #[trigger]
                e.is_shown_as(inner) && text == "codec: "@ + inner,
            TransportError::Ws(why) => text == "websocket: "@ + why@,
            TransportError::Connect(why) => text == "connect failed: "@ + why@,
            TransportError::Closed { reason } => text == (match reason {
                Some(reason) => "peer closed the control channel: "@ + reason@,
                None => "peer closed the control channel"@,
            }),
            TransportError::Protocol(why) => text == "protocol violation: "@ + why@,
        }
    }

    /// What the failure says of itself.
    pub fn to_string(&self) -> (s: String)
        ensures
            self.is_shown_as(s@),
    {
        match self {
            TransportError::Codec(e) => {
                let inner = e.to_string();
                proof {
                    assert(e.is_shown_as(inner@));
                }
                labelled("codec: ", inner.as_str())
            },
            TransportError::Ws(why) => labelled("websocket: ", why.as_str()),
            TransportError::Connect(why) => labelled("connect failed: ", why.as_str()),
            TransportError::Closed { reason } => match reason {
                Some(reason) => labelled("peer closed the control channel: ", reason.as_str()),
                None => "peer closed the control channel".to_owned(),
            },
            TransportError::Protocol(why) => labelled("protocol violation: ", why.as_str()),
        }
    }
}

/// Takes one message off the stream: `None` to wait for the next, else the channel
/// and envelope received or why receiving failed. `decode` parses an envelope.
///
/// # Errors
/// [`TransportError::Closed`] when the peer closes or the stream ends;
/// [`TransportError::Protocol`] on a text message or trailing bytes;
/// [`TransportError::Codec`] if the frame or the envelope cannot be read;
/// [`TransportError::Ws`] on a transport failure.
pub fn recv_step<F: FnOnce(&[u8]) -> Result<Envelope, DecodeError>>(
    event: WsEvent,
    decode: F,
) -> (r: Option<Result<(Channel, Envelope), TransportError>>)
    requires
        forall|payload: &[u8]| #[trigger] decode.requires((payload,)),
    ensures
        match (event, r) {
            (WsEvent::Binary(bytes), Some(result)) => match (untagged(bytes@), result) {
                (Ok((channel, payload, rest)), Ok((c, envelope))) => {
                    &&& rest.len() == 0
                    &&& c == channel
                    &&& parsed(decode, payload, Ok(envelope))
                },
                (Ok((_, payload, rest)), Err(TransportError::Codec(CodecError::Decode(e)))) => {
                    &&& rest.len() == 0
                    &&& parsed(decode, payload, Err(e))
                },
                (Ok((_, _, rest)), Err(TransportError::Protocol(text))) => rest.len() > 0 && text@
                    == trailing_bytes(rest.len()),
                (Err(e), Err(TransportError::Codec(f))) => e == f,
                _ => false,
            },
            (WsEvent::Text, Some(Err(TransportError::Protocol(text)))) => text@
                == unexpected_text(),
            (WsEvent::Keepalive, None) => true,
            (WsEvent::Close(given), Some(Err(TransportError::Closed { reason }))) => reason_of(
                given,
                reason,
            ),
            (WsEvent::End, Some(Err(TransportError::Closed { reason }))) => reason is None,
            (WsEvent::Failed(e), Some(Err(TransportError::Ws(f)))) => e == f,
            _ => false,
        },
{
    match inbound(event) {
        Inbound::Skip => None,
        Inbound::Frame(channel, payload) => {
            let bytes = payload.as_slice();
            match decode_message(bytes, decode) {
                Ok(envelope) => {
                    proof {
                        assert(parsed(decode, bytes@, Ok(envelope)));
                    }
                    Some(Ok((channel, envelope)))
                },
                Err(e) => {
                    proof {
                        assert(e is Decode && parsed(decode, bytes@, Err(e->Decode_0)));
                    }
                    Some(Err(TransportError::Codec(e)))
                },
            }
        },
        Inbound::Malformed(e) => Some(Err(TransportError::Codec(e))),
        Inbound::Closed(reason) => Some(Err(TransportError::Closed { reason })),
        Inbound::Violation(text) => Some(Err(TransportError::Protocol(text))),
        Inbound::Failed(e) => Some(Err(TransportError::Ws(e))),
    }
}

/// Whether `result` is what parsing the payload gave.
pub open spec fn parsed<F: FnOnce(&[u8]) -> Result<Envelope, DecodeError>>(
    decode: F,
    payload: Seq<u8>,
    result: Result<Envelope, DecodeError>,
) -> bool {
    exists|bytes: &[u8]| bytes@ == payload && #[trigger] decode.ensures((bytes,), result)
}

/// What the gateway sends in one tagged frame arrives on the channel that it was sent on,
/// with what the payload parses as; it ends the conversation only where the payload does
/// not parse, and with that failure.
pub proof fn a_sent_frame_arrives_on_its_channel<
    F: FnOnce(&[u8]) -> Result<Envelope, DecodeError>,
>(
    channel: Channel,
    payload: Seq<u8>,
    bytes: Vec<u8>,
    decode: F,
    r: Option<Result<(Channel, Envelope), TransportError>>,
)
    requires
        payload.len() <= MAX_FRAME_LEN,
        bytes@ == tagged(channel, payload),
        call_ensures(recv_step::<F>, (WsEvent::Binary(bytes), decode), r),
    ensures
        r is Some,
        r->0 is Ok ==> (r->0->Ok_0).0 == channel,
        r->0 is Ok ==> exists|given: &[u8]|
            given@ == payload && #[trigger] decode.ensures((given,), Ok((r->0->Ok_0).1)),
        r->0 is Err ==> r->0->Err_0 is Codec && r->0->Err_0->Codec_0 is Decode,
        r->0 is Err ==> exists|given: &[u8]|
            given@ == payload && #[trigger] decode.ensures(
                (given,),
                Err(r->0->Err_0->Codec_0->Decode_0),
            ),
{
    a_tagged_frame_reads_back(channel, payload, Seq::empty());
    assert(tagged(channel, payload) + Seq::<u8>::empty() =~= bytes@);
}

/// Only keepalives are waited through, only a close and the end of the stream are a
/// close, and only a failure of the transport is one; whatever is received came in a
/// binary message.
pub proof fn each_message_ends_or_goes_on_as_it_should<
    F: FnOnce(&[u8]) -> Result<Envelope, DecodeError>,
>(event: WsEvent, decode: F, r: Option<Result<(Channel, Envelope), TransportError>>)
    requires
        call_ensures(recv_step::<F>, (event, decode), r),
    ensures
        r is None <==> event is Keepalive,
        (r is Some && r->0 is Err && r->0->Err_0 is Closed) <==> event is Close || event is End,
        (r is Some && r->0 is Err && r->0->Err_0 is Ws) <==> event is Failed,
        r is Some && r->0 is Ok ==> event is Binary,
        event is Text ==> r->0 is Err && r->0->Err_0 is Protocol,
        event is Failed ==> r->0->Err_0->Ws_0 == event->Failed_0,
{
}

} // verus!
