//! The WebSocket transport of a session: what the gateway makes of each message
//! that the stream yields.
use crate::agentproto::session::InboundFrame;
use crate::agentproto::session::SessionError;
use crate::proto::codec::Channel;
use crate::proto::codec::MAX_FRAME_LEN;
use crate::proto::codec::a_tagged_frame_reads_back;
use crate::proto::codec::decode_message;
use crate::proto::codec::tagged;
use crate::proto::codec::untagged;
use crate::proto::codec::CodecError;
use crate::proto::receive::inbound;
use crate::proto::receive::reason_of;
use crate::proto::receive::trailing_bytes;
use crate::proto::receive::unexpected_text;
use crate::proto::receive::Inbound;
use crate::proto::receive::WsEvent;
use crate::proto::v1::Envelope;
use prost::DecodeError;
use vstd::prelude::*;

verus! {

/// Takes one message off the stream: `None` to wait for the next, else the frame
/// received or why the session ends. `decode` parses an envelope.
///
/// # Errors
/// [`SessionError::Closed`] when the agent closes or the stream ends;
/// [`SessionError::Protocol`] on a text message or trailing bytes;
/// [`SessionError::Codec`] if the frame or the envelope cannot be read;
/// [`SessionError::WebSocket`] on a transport failure.
pub fn recv_step<F: FnOnce(&[u8]) -> Result<Envelope, DecodeError>>(
    event: WsEvent,
    decode: F,
) -> (r: Option<Result<InboundFrame, SessionError>>)
    requires
        forall|payload: &[u8]| #[trigger] decode.requires((payload,)),
    ensures
        match (event, r) {
            (WsEvent::Binary(bytes), Some(result)) => match (untagged(bytes@), result) {
                (Ok((channel, payload, rest)), Ok(frame)) => {
                    &&& rest.len() == 0
                    &&& frame.channel == channel
                    &&& parsed(decode, payload, Ok(frame.envelope))
                },
                (Ok((_, payload, rest)), Err(SessionError::Codec(CodecError::Decode(e)))) => {
                    &&& rest.len() == 0
                    &&& parsed(decode, payload, Err(e))
                },
                (Ok((_, _, rest)), Err(SessionError::Protocol(text))) => rest.len() > 0 && text@
                    == trailing_bytes(rest.len()),
                (Err(e), Err(SessionError::Codec(f))) => e == f,
                _ => false,
            },
            (WsEvent::Text, Some(Err(SessionError::Protocol(text)))) => text@ == unexpected_text(),
            (WsEvent::Keepalive, None) => true,
            (WsEvent::Close(given), Some(Err(SessionError::Closed { reason }))) => reason_of(
                given,
                reason,
            ),
            (WsEvent::End, Some(Err(SessionError::Closed { reason }))) => reason is None,
            (WsEvent::Failed(e), Some(Err(SessionError::WebSocket(f)))) => e == f,
            _ => false,
        },
{
    match inbound(event) {
        Inbound::Skip => None,
        Inbound::Frame(channel, payload) => {
            let bytes = payload.as_slice();
            match decode_message(bytes, decode) {
                Ok(envelope) => {
                    proof {
                        assert(parsed(decode, bytes@, Ok(envelope)));
                    }
                    Some(Ok(InboundFrame { channel, envelope }))
                },
                Err(e) => {
                    proof {
                        assert(e is Decode && parsed(decode, bytes@, Err(e->Decode_0)));
                    }
                    Some(Err(SessionError::Codec(e)))
                },
            }
        },
        Inbound::Malformed(e) => Some(Err(SessionError::Codec(e))),
        Inbound::Closed(reason) => Some(Err(SessionError::Closed { reason })),
        Inbound::Violation(text) => Some(Err(SessionError::Protocol(text))),
        Inbound::Failed(e) => Some(Err(SessionError::WebSocket(e))),
    }
}

/// Whether `result` is what parsing the payload gave.
pub open spec fn parsed<F: FnOnce(&[u8]) -> Result<Envelope, DecodeError>>(
    decode: F,
    payload: Seq<u8>,
    result: Result<Envelope, DecodeError>,
) -> bool {
    exists|bytes: &[u8]| bytes@ == payload && #[trigger] decode.ensures((bytes,), result)
}

/// What the agent sends in one tagged frame arrives on the channel that it was sent on,
/// with what the payload parses as; it ends the conversation only where the payload does
/// not parse, and with that failure.
pub proof fn a_sent_frame_arrives_on_its_channel<
    F: FnOnce(&[u8]) -> Result<Envelope, DecodeError>,
>(
    channel: Channel,
    payload: Seq<u8>,
    bytes: Vec<u8>,
    decode: F,
    r: Option<Result<InboundFrame, SessionError>>,
)
    requires
        payload.len() <= MAX_FRAME_LEN,
        bytes@ == tagged(channel, payload),
        call_ensures(recv_step::<F>, (WsEvent::Binary(bytes), decode), r),
    ensures
        r is Some,
        r->0 is Ok ==> (r->0->Ok_0).channel == channel,
        r->0 is Ok ==> exists|given: &[u8]|
            given@ == payload && #[trigger] decode.ensures((given,), Ok((r->0->Ok_0).envelope)),
        r->0 is Err ==> r->0->Err_0 is Codec && r->0->Err_0->Codec_0 is Decode,
        r->0 is Err ==> exists|given: &[u8]|
            given@ == payload && #[trigger] decode.ensures(
                (given,),
                Err(r->0->Err_0->Codec_0->Decode_0),
            ),
{
    a_tagged_frame_reads_back(channel, payload, Seq::empty());
    assert(tagged(channel, payload) + Seq::<u8>::empty() =~= bytes@);
}

/// Only keepalives are waited through, only a close and the end of the stream are a
/// close, and only a failure of the transport is one; whatever is received came in a
/// binary message.
pub proof fn each_message_ends_or_goes_on_as_it_should<
    F: FnOnce(&[u8]) -> Result<Envelope, DecodeError>,
>(event: WsEvent, decode: F, r: Option<Result<InboundFrame, SessionError>>)
    requires
        call_ensures(recv_step::<F>, (event, decode), r),
    ensures
        r is None <==> event is Keepalive,
        (r is Some && r->0 is Err && r->0->Err_0 is Closed) <==> event is Close || event is End,
        (r is Some && r->0 is Err && r->0->Err_0 is WebSocket) <==> event is Failed,
        r is Some && r->0 is Ok ==> event is Binary,
        event is Text ==> r->0 is Err && r->0->Err_0 is Protocol,
        event is Failed ==> r->0->Err_0->WebSocket_0 == event->Failed_0,
{
}

/// A session ends cleanly exactly where the stream ends, or the agent closes it without
/// a reason or with an empty one.
pub proof fn a_session_ends_cleanly_without_a_reason<
    F: FnOnce(&[u8]) -> Result<Envelope, DecodeError>,
>(event: WsEvent, decode: F, e: SessionError, clean: bool)
    requires
        call_ensures(recv_step::<F>, (event, decode), Some(Err(e))),
        call_ensures(SessionError::is_clean_close, (&e,), clean),
    ensures
        clean <==> event is End || (event is Close && (event->Close_0 is None || (
        event->Close_0->0)@.len() == 0)),
{
}

} // verus!
