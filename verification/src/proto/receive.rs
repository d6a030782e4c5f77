//! What an inbound WebSocket message means on the control channel.
//!
//! Each logical stream is carried as binary messages, one channel-tagged frame
//! each. Keepalives are skipped; a close, a text message or trailing bytes end the
//! conversation.
use crate::decimal::decimal;
use crate::decimal::unsigned;
use crate::proto::codec::MAX_FRAME_LEN;
use crate::proto::codec::a_cut_tagged_frame_is_short;
use crate::proto::codec::a_tagged_frame_reads_back;
use crate::proto::codec::decode_wss_frame;
use crate::proto::codec::framed;
use crate::proto::codec::tagged;
use crate::proto::codec::tags_and_channels_correspond;
use crate::proto::codec::untagged;
use crate::proto::codec::Channel;
use crate::proto::codec::CodecError;
use crate::proto::codec::what_reads_is_a_frame;
use vstd::prelude::*;

verus! {

/// What the WebSocket stream yields.
#[derive(Debug)]
pub enum WsEvent {
    /// A binary message.
    Binary(Vec<u8>),
    /// A text message.
    Text,
    /// A keepalive, or a raw frame.
    Keepalive,
    /// A close, with its reason if it carries a close frame.
    Close(Option<String>),
    /// The end of the stream.
    End,
    /// A failure of the transport, with its own message.
    Failed(String),
}

/// What to make of it.
#[derive(Debug)]
pub enum Inbound {
    /// Nothing: wait for the next.
    Skip,
    /// One frame: its channel and its payload, yet to be decoded.
    Frame(Channel, Vec<u8>),
    /// A frame that could not be read.
    Malformed(CodecError),
    /// The peer closed, with a non-empty reason if it gave one.
    Closed(Option<String>),
    /// Something the control channel does not carry.
    Violation(String),
    /// The transport failed.
    Failed(String),
}

/// The complaint about `n` bytes after a frame.
pub open spec fn trailing_bytes(n: nat) -> Seq<char> {
    decimal(n) + " trailing bytes after control frame"@
}

/// The complaint about a text message.
pub open spec fn unexpected_text() -> Seq<char> {
    "unexpected text frame on binary control channel"@
}

/// Whether a close reason is what is left of `given` when an empty one counts as
/// none.
pub open spec fn reason_of(given: Option<String>, reason: Option<String>) -> bool {
    match given {
        Some(text) => if text@.len() == 0 {
            reason is None
        } else {
            reason == Some(text)
        },
        None => reason is None,
    }
}

/// Whether `r` is what to make of `event`.
pub open spec fn means(event: WsEvent, r: Inbound) -> bool {
    match (event, r) {
        (WsEvent::Binary(bytes), r) => match (untagged(bytes@), r) {
            (Ok((channel, payload, rest)), Inbound::Frame(c, p)) => rest.len() == 0 && c == channel
                && p@ == payload,
            (Ok((_, _, rest)), Inbound::Violation(text)) => rest.len() > 0 && text@
                == trailing_bytes(rest.len()),
            (Err(e), Inbound::Malformed(f)) => e == f,
            _ => false,
        },
        (WsEvent::Text, Inbound::Violation(text)) => text@ == unexpected_text(),
        (WsEvent::Keepalive, Inbound::Skip) => true,
        (WsEvent::Close(given), Inbound::Closed(reason)) => reason_of(given, reason),
        (WsEvent::End, Inbound::Closed(reason)) => reason is None,
        (WsEvent::Failed(e), Inbound::Failed(f)) => e == f,
        _ => false,
    }
}

/// What to make of an inbound message.
#[must_use]
pub fn inbound(event: WsEvent) -> (r: Inbound)
    ensures
        means(event, r),
{
    match event {
        WsEvent::Binary(bytes) => match decode_wss_frame(bytes.as_slice()) {
            Err(e) => Inbound::Malformed(e),
            Ok((channel, payload, rest)) => {
                if rest.len() > 0 {
                    let mut text = unsigned(rest.len() as u64);
                    text.append(" trailing bytes after control frame");
                    Inbound::Violation(text)
                } else {
                    let mut owned: Vec<u8> = Vec::new();
                    owned.extend_from_slice(payload);
                    proof {
                        assert(owned@ =~= payload@);
                    }
                    Inbound::Frame(channel, owned)
                }
            },
        },
        WsEvent::Text => Inbound::Violation(
            "unexpected text frame on binary control channel".to_owned(),
        ),
        WsEvent::Keepalive => Inbound::Skip,
        WsEvent::Close(reason) => Inbound::Closed(
            match reason {
                Some(text) => if text.as_str().is_empty() {
                    None
                } else {
                    Some(text)
                },
                None => None,
            },
        ),
        WsEvent::End => Inbound::Closed(None),
        WsEvent::Failed(e) => Inbound::Failed(e),
    }
}

/// A message that holds one tagged frame is received as its channel and payload; with
/// anything after the frame it is refused, and the number of those bytes is told.
pub proof fn a_framed_message_is_received(
    channel: Channel,
    payload: Seq<u8>,
    rest: Seq<u8>,
    bytes: Vec<u8>,
    r: Inbound,
)
    requires
        payload.len() <= MAX_FRAME_LEN,
        bytes@ == tagged(channel, payload) + rest,
        call_ensures(inbound, (WsEvent::Binary(bytes),), r),
    ensures
        rest.len() == 0 ==> r is Frame && r->Frame_0 == channel && (r->Frame_1)@ == payload,
        rest.len() > 0 ==> r is Violation && decimal(rest.len()).is_prefix_of((r->Violation_0)@),
{
    a_tagged_frame_reads_back(channel, payload, rest);
}

/// What is passed on as a frame was all of a binary message: no other message, and no
/// more and no fewer bytes, gives that channel and payload.
pub proof fn only_a_framed_message_is_passed_on(event: WsEvent, r: Inbound)
    requires
        call_ensures(inbound, (event,), r),
        r is Frame,
    ensures
        event is Binary,
        (event->Binary_0)@ == tagged(r->Frame_0, (r->Frame_1)@),
{
    let buf = (event->Binary_0)@;
    what_reads_is_a_frame(buf.skip(1));
    assert(buf =~= seq![buf[0]] + buf.skip(1));
    tags_and_channels_correspond(r->Frame_0, buf[0]);
    assert(framed((r->Frame_1)@) + Seq::<u8>::empty() =~= framed((r->Frame_1)@));
    assert(buf.skip(1) =~= framed((r->Frame_1)@));
}

/// A message that is cut off is malformed: it is neither skipped nor taken for the end.
pub proof fn a_cut_message_is_malformed(
    channel: Channel,
    payload: Seq<u8>,
    n: int,
    bytes: Vec<u8>,
    r: Inbound,
)
    requires
        payload.len() <= MAX_FRAME_LEN,
        0 <= n < tagged(channel, payload).len(),
        bytes@ == tagged(channel, payload).take(n),
        call_ensures(inbound, (WsEvent::Binary(bytes),), r),
    ensures
        r is Malformed,
        r->Malformed_0 is ShortBuffer,
{
    a_cut_tagged_frame_is_short(channel, payload, n);
}

/// Each kind of message has one outcome: keepalives alone are waited through, closes
/// and the end of the stream alone are a close, a failure alone is a failure, and a text
/// is always a violation.
pub proof fn each_message_has_its_outcome(event: WsEvent, r: Inbound)
    requires
        call_ensures(inbound, (event,), r),
    ensures
        r is Skip <==> event is Keepalive,
        r is Closed <==> event is Close || event is End,
        r is Failed <==> event is Failed,
        event is Text ==> r is Violation,
        r is Violation ==> event is Text || event is Binary,
        r is Malformed ==> event is Binary,
        event is Failed ==> r->Failed_0 == event->Failed_0,
{
}

/// A close has a reason exactly where the peer gave a text that is not empty, and then
/// it is that text; a stream that just ends is closed as one without a reason.
pub proof fn a_close_tells_the_reason_that_was_given(event: WsEvent, r: Inbound)
    requires
        call_ensures(inbound, (event,), r),
        r is Closed,
    ensures
        r->Closed_0 is Some <==> event is Close && event->Close_0 is Some && (
        event->Close_0->0)@.len() > 0,
        r->Closed_0 is Some ==> (r->Closed_0->0)@ == (event->Close_0->0)@,
{
}

} // verus!
