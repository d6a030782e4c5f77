//! Length-prefix framing for the agent control channel.
//!
//! Every message on the wire is a big-endian `u32` byte length followed by the
//! serialized bytes. Where the stream itself is the channel a bare frame is used
//! ([`encode_frame`], [`decode_frame`]); where the four logical streams share one
//! connection each frame is tagged with a one-byte [`Channel`] ([`wss_frame`],
//! [`decode_wss_frame`]).
//!
//! The framing knows nothing of the message catalog. A message comes in as its
//! encoded length and a function that serializes it, and goes out through a
//! function that parses it.
use crate::decimal::decimal;
use crate::decimal::unsigned;
use crate::text::labelled;
use prost::DecodeError;
use vstd::prelude::*;
use vstd::string::to_string_from_display_ensures;
use vstd::slice::slice_subrange;

verus! {

/// The parse error of the protobuf runtime (`prost::DecodeError`), carried
/// through unopened.
#[verifier::external_type_specification]
#[verifier::external_body]
pub struct ExDecodeError(prost::DecodeError);

/// Width of the big-endian length prefix, in bytes.
pub const LEN_PREFIX_BYTES: usize = 4;

/// Maximum accepted frame payload length: 8 MiB, far above any control message
/// and still a bound on a hostile length prefix.
pub const MAX_FRAME_LEN: usize = 8 * 1024 * 1024;

/// The four logical streams multiplexed over a single connection.
#[derive(Debug, Clone, Copy, PartialEq, Eq, Hash, Structural)]
pub enum Channel {
    /// Bidirectional control: enrollment, job offers, config push, state reports.
    Control,
    /// Agent to gateway presence and health.
    Heartbeat,
    /// Agent to gateway log chunks.
    Log,
    /// Agent to gateway usage records.
    Metering,
}

impl Channel {
    /// The one-byte wire tag of the channel.
    pub open spec fn wire_tag(self) -> u8 {
        match self {
            Channel::Control => 0,
            Channel::Heartbeat => 1,
            Channel::Log => 2,
            Channel::Metering => 3,
        }
    }

    /// The channel that a wire tag stands for.
    pub open spec fn of_tag(tag: u8) -> Option<Channel> {
        match tag {
            0 => Some(Channel::Control),
            1 => Some(Channel::Heartbeat),
            2 => Some(Channel::Log),
            3 => Some(Channel::Metering),
            _ => None,
        }
    }

    /// Returns the one-byte wire tag for this channel.
    #[must_use]
    pub fn tag(self) -> (t: u8)
        ensures
            t == self.wire_tag(),
    {
        match self {
            Channel::Control => 0,
            Channel::Heartbeat => 1,
            Channel::Log => 2,
            Channel::Metering => 3,
        }
    }

    /// Parses a channel from its one-byte wire tag.
    ///
    /// # Errors
    /// [`CodecError::UnknownChannel`] if `tag` is not one of `0..=3`.
    pub fn from_tag(tag: u8) -> (r: Result<Self, CodecError>)
        ensures
            r == (match Channel::of_tag(tag) {
                Some(c) => Ok::<Channel, CodecError>(c),
                None => Err(CodecError::UnknownChannel(tag)),
            }),
            r is Ok <==> tag <= 3,
    {
        match tag {
            0 => Ok(Channel::Control),
            1 => Ok(Channel::Heartbeat),
            2 => Ok(Channel::Log),
            3 => Ok(Channel::Metering),
            other => Err(CodecError::UnknownChannel(other)),
        }
    }
}

/// Errors from framing, deframing, and message (de)serialization.
#[derive(Debug)]
pub enum CodecError {
    /// The length prefix declares a payload larger than [`MAX_FRAME_LEN`].
    FrameTooLarge {
        /// The declared payload length.
        len: usize,
    },
    /// The buffer is shorter than the frame it claims to contain.
    ShortBuffer {
        /// Bytes required to read the frame.
        need: usize,
        /// Bytes actually available.
        have: usize,
    },
    /// A tagged frame carried a channel tag outside `0..=3`.
    UnknownChannel(u8),
    /// The payload bytes did not decode as the expected message.
    Decode(DecodeError),
}

impl CodecError {
    /// Whether a text is what the failure says of itself.
    pub open spec fn is_shown_as(self, text: Seq<char>) -> bool {
        match self {
            CodecError::FrameTooLarge { len } => text == "frame length "@ + decimal(len as nat)
                + " exceeds maximum "@ + decimal(MAX_FRAME_LEN as nat),
            CodecError::ShortBuffer { need, have } => text == "short buffer: need "@
                + decimal(need as nat) + " bytes, have "@ + decimal(have as nat),
            CodecError::UnknownChannel(tag) => text == "unknown channel tag "@
                + decimal(tag as nat),
            CodecError::Decode(e) => exists|inner: String| #[trigger]
                to_string_from_display_ensures(&e, inner) && text
                    == "protobuf decode failed: "@ + inner@,
        }
    }

    /// What the failure says of itself.
    pub fn to_string(&self) -> (s: String)
        ensures
            self.is_shown_as(s@),
    {
        match self {
            CodecError::FrameTooLarge { len } => {
                let mut s = labelled("frame length ", unsigned(*len as u64).as_str());
                s.append(" exceeds maximum ");
                s.append(unsigned(MAX_FRAME_LEN as u64).as_str());
                s
            },
            CodecError::ShortBuffer { need, have } => {
                let mut s = labelled("short buffer: need ", unsigned(*need as u64).as_str());
                s.append(" bytes, have ");
                s.append(unsigned(*have as u64).as_str());
                s
            },
            CodecError::UnknownChannel(tag) => labelled(
                "unknown channel tag ",
                unsigned(*tag as u64).as_str(),
            ),
            CodecError::Decode(e) => {
                let inner = e.to_string();
                labelled("protobuf decode failed: ", inner.as_str())
            },
        }
    }
}

/// A number below 2^32 as four bytes, most significant first.
pub open spec fn be32(n: nat) -> Seq<u8> {
    seq![
        (n / 0x100_0000 % 0x100) as u8,
        (n / 0x1_0000 % 0x100) as u8,
        (n / 0x100 % 0x100) as u8,
        (n % 0x100) as u8,
    ]
}

/// The number that four bytes stand for, most significant first.
pub open spec fn be32_value(b: Seq<u8>) -> nat {
    (b[0] * 0x100_0000 + b[1] * 0x1_0000 + b[2] * 0x100 + b[3]) as nat
}

/// The bare frame of a payload: its length in four bytes, then its bytes.
pub open spec fn framed(payload: Seq<u8>) -> Seq<u8> {
    be32(payload.len()) + payload
}

/// The tagged frame of a payload: the channel's tag, then the bare frame.
pub open spec fn tagged(channel: Channel, payload: Seq<u8>) -> Seq<u8> {
    seq![channel.wire_tag()] + framed(payload)
}

/// The payload of the bare frame at the front of `buf` and what follows it, or
/// why there is none.
pub open spec fn deframed(buf: Seq<u8>) -> Result<(Seq<u8>, Seq<u8>), CodecError> {
    if buf.len() < 4 {
        Err(CodecError::ShortBuffer { need: 4, have: buf.len() as usize })
    } else {
        let len = be32_value(buf);
        if len > MAX_FRAME_LEN {
            Err(CodecError::FrameTooLarge { len: len as usize })
        } else if buf.len() < 4 + len {
            Err(CodecError::ShortBuffer { need: (4 + len) as usize, have: buf.len() as usize })
        } else {
            Ok((buf.subrange(4, 4 + len as int), buf.skip(4 + len as int)))
        }
    }
}

/// The channel and payload of the tagged frame at the front of `buf` and what
/// follows it, or why there is none. The tag is judged before the frame.
pub open spec fn untagged(buf: Seq<u8>) -> Result<(Channel, Seq<u8>, Seq<u8>), CodecError> {
    if buf.len() == 0 {
        Err(CodecError::ShortBuffer { need: 1, have: 0 })
    } else {
        match Channel::of_tag(buf[0]) {
            None => Err(CodecError::UnknownChannel(buf[0])),
            Some(channel) => match deframed(buf.skip(1)) {
                Ok((payload, rest)) => Ok((channel, payload, rest)),
                Err(e) => Err(e),
            },
        }
    }
}

/// Frames a message as a bare length-prefixed frame. The message is given by its
/// encoded length and the function that serializes it, which is called only
/// where the length is within [`MAX_FRAME_LEN`]: an oversized message is never
/// serialized.
///
/// # Errors
/// [`CodecError::FrameTooLarge`] if the encoded message exceeds
/// [`MAX_FRAME_LEN`].
pub fn encode_frame<F: FnOnce() -> Vec<u8>>(encoded_len: usize, encode: F) -> (r: Result<
    Vec<u8>,
    CodecError,
>)
    requires
        encoded_len <= MAX_FRAME_LEN ==> encode.requires(()),
    ensures
        encoded_len > MAX_FRAME_LEN ==> r == Err::<Vec<u8>, CodecError>(
            CodecError::FrameTooLarge { len: encoded_len },
        ),
        encoded_len <= MAX_FRAME_LEN ==> exists|payload: Vec<u8>|
            #[trigger] encode.ensures((), payload) && frame_result(payload@, r),
{
    if encoded_len > MAX_FRAME_LEN {
        return Err(CodecError::FrameTooLarge { len: encoded_len });
    }
    let payload = encode();
    frame(&payload)
}

/// What framing a payload returns: the bare frame, or an error exactly where the
/// payload exceeds [`MAX_FRAME_LEN`].
pub open spec fn frame_result(payload: Seq<u8>, r: Result<Vec<u8>, CodecError>) -> bool {
    match r {
        Ok(out) => payload.len() <= MAX_FRAME_LEN && out@ == framed(payload),
        Err(e) => payload.len() > MAX_FRAME_LEN && e == (CodecError::FrameTooLarge {
            len: payload.len() as usize,
        }),
    }
}

/// Frames raw payload bytes as a bare length-prefixed frame.
///
/// # Errors
/// [`CodecError::FrameTooLarge`] if `payload` exceeds [`MAX_FRAME_LEN`].
pub fn frame(payload: &[u8]) -> (r: Result<Vec<u8>, CodecError>)
    ensures
        frame_result(payload@, r),
{
    let len: usize = payload.len();
    if len > MAX_FRAME_LEN {
        return Err(CodecError::FrameTooLarge { len });
    }
    let mut out: Vec<u8> = Vec::with_capacity(LEN_PREFIX_BYTES + len);
    out.push((len / 0x100_0000 % 0x100) as u8);
    out.push((len / 0x1_0000 % 0x100) as u8);
    out.push((len / 0x100 % 0x100) as u8);
    out.push((len % 0x100) as u8);
    out.extend_from_slice(payload);
    proof {
        assert(out@ =~= framed(payload@));
    }
    Ok(out)
}

/// Reads one bare length-prefixed frame from the front of `buf`: its payload and
/// the unconsumed remainder.
///
/// # Errors
/// - [`CodecError::ShortBuffer`] if `buf` is too short to hold the length prefix
///   or the full declared payload.
/// - [`CodecError::FrameTooLarge`] if the declared length exceeds
///   [`MAX_FRAME_LEN`].
pub fn decode_frame(buf: &[u8]) -> (r: Result<(&[u8], &[u8]), CodecError>)
    ensures
        match (r, deframed(buf@)) {
            (Ok((payload, rest)), Ok((p, q))) => payload@ == p && rest@ == q,
            (Err(e), Err(f)) => e == f,
            _ => false,
        },
{
    if buf.len() < LEN_PREFIX_BYTES {
        return Err(CodecError::ShortBuffer { need: LEN_PREFIX_BYTES, have: buf.len() });
    }
    let declared: u64 = buf[0] as u64 * 0x100_0000 + buf[1] as u64 * 0x1_0000 + buf[2] as u64
        * 0x100 + buf[3] as u64;
    let len: usize = declared as usize;
    if len > MAX_FRAME_LEN {
        return Err(CodecError::FrameTooLarge { len });
    }
    let end: usize = LEN_PREFIX_BYTES + len;
    if buf.len() < end {
        return Err(CodecError::ShortBuffer { need: end, have: buf.len() });
    }
    let payload = slice_subrange(buf, LEN_PREFIX_BYTES, end);
    let rest = slice_subrange(buf, end, buf.len());
    proof {
        assert(rest@ =~= buf@.skip(end as int));
    }
    Ok((payload, rest))
}

/// Frames a message as a channel-tagged frame: the tag, the length, the payload.
/// As in [`encode_frame`], an oversized message is never serialized.
///
/// # Errors
/// [`CodecError::FrameTooLarge`] if the encoded message exceeds
/// [`MAX_FRAME_LEN`].
pub fn wss_frame<F: FnOnce() -> Vec<u8>>(
    channel: Channel,
    encoded_len: usize,
    encode: F,
) -> (r: Result<Vec<u8>, CodecError>)
    requires
        encoded_len <= MAX_FRAME_LEN ==> encode.requires(()),
    ensures
        encoded_len > MAX_FRAME_LEN ==> r == Err::<Vec<u8>, CodecError>(
            CodecError::FrameTooLarge { len: encoded_len },
        ),
        encoded_len <= MAX_FRAME_LEN ==> exists|payload: Vec<u8>|
            #[trigger] encode.ensures((), payload) && wss_frame_result(channel, payload@, r),
{
    if encoded_len > MAX_FRAME_LEN {
        return Err(CodecError::FrameTooLarge { len: encoded_len });
    }
    let payload = encode();
    let inner = match frame(&payload) {
        Ok(inner) => inner,
        Err(e) => {
            return Err(e);
        },
    };
    let mut out: Vec<u8> = Vec::with_capacity(1);
    out.push(channel.tag());
    out.extend_from_slice(&inner);
    proof {
        assert(out@ =~= tagged(channel, payload@));
    }
    Ok(out)
}

/// What framing a payload for a channel returns: the tagged frame, or an error
/// exactly where the payload exceeds [`MAX_FRAME_LEN`].
pub open spec fn wss_frame_result(
    channel: Channel,
    payload: Seq<u8>,
    r: Result<Vec<u8>, CodecError>,
) -> bool {
    match r {
        Ok(out) => payload.len() <= MAX_FRAME_LEN && out@ == tagged(channel, payload),
        Err(e) => payload.len() > MAX_FRAME_LEN && e == (CodecError::FrameTooLarge {
            len: payload.len() as usize,
        }),
    }
}

/// Reads one channel-tagged frame from the front of `buf`: its channel, its
/// payload and the unconsumed remainder.
///
/// # Errors
/// - [`CodecError::ShortBuffer`] if `buf` lacks the channel tag or the full frame.
/// - [`CodecError::UnknownChannel`] if the tag is outside `0..=3`.
/// - [`CodecError::FrameTooLarge`] if the declared length exceeds
///   [`MAX_FRAME_LEN`].
pub fn decode_wss_frame(buf: &[u8]) -> (r: Result<(Channel, &[u8], &[u8]), CodecError>)
    ensures
        match (r, untagged(buf@)) {
            (Ok((channel, payload, rest)), Ok((c, p, q))) => channel == c && payload@ == p && rest@
                == q,
            (Err(e), Err(f)) => e == f,
            _ => false,
        },
{
    if buf.len() == 0 {
        return Err(CodecError::ShortBuffer { need: 1, have: 0 });
    }
    let channel = match Channel::from_tag(buf[0]) {
        Ok(channel) => channel,
        Err(e) => {
            return Err(e);
        },
    };
    let inner = slice_subrange(buf, 1, buf.len());
    proof {
        assert(inner@ =~= buf@.skip(1));
    }
    match decode_frame(inner) {
        Ok((payload, rest)) => Ok((channel, payload, rest)),
        Err(e) => Err(e),
    }
}

/// Decodes a frame's payload as a message, with the function that parses it.
///
/// # Errors
/// [`CodecError::Decode`] if `payload` is not a valid encoding of the message.
pub fn decode_message<M, F: FnOnce(&[u8]) -> Result<M, DecodeError>>(
    payload: &[u8],
    decode: F,
) -> (r: Result<M, CodecError>)
    requires
        decode.requires((payload,)),
    ensures
        match r {
            Ok(m) => decode.ensures((payload,), Ok(m)),
            Err(CodecError::Decode(e)) => decode.ensures((payload,), Err(e)),
            Err(_) => false,
        },
{
    match decode(payload) {
        Ok(m) => Ok(m),
        Err(e) => Err(CodecError::Decode(e)),
    }
}

/// The four bytes of a length read back as that length.
pub proof fn be32_reads_back(n: nat, rest: Seq<u8>)
    requires
        n < 0x1_0000_0000,
    ensures
        be32_value(be32(n) + rest) == n,
        be32(n).len() == 4,
{
    let b = be32(n) + rest;
    let q = n / 0x100;
    let p = q / 0x100;
    assert(n / 0x1_0000 == p);
    assert(n / 0x100_0000 == p / 0x100);
    assert(n == q * 0x100 + n % 0x100);
    assert(q == p * 0x100 + q % 0x100);
    assert(p == (p / 0x100) * 0x100 + p % 0x100);
    assert(p / 0x100 < 0x100);
}

/// A frame reads back as its payload, and whatever followed it is left over.
pub proof fn a_frame_reads_back(payload: Seq<u8>, rest: Seq<u8>)
    requires
        payload.len() <= MAX_FRAME_LEN,
    ensures
        deframed(framed(payload) + rest) == Ok::<(Seq<u8>, Seq<u8>), CodecError>((payload, rest)),
{
    let buf = framed(payload) + rest;
    be32_reads_back(payload.len(), payload + rest);
    assert(buf =~= be32(payload.len()) + (payload + rest));
    assert(buf.subrange(4, 4 + payload.len() as int) =~= payload);
    assert(buf.skip(4 + payload.len() as int) =~= rest);
}

/// A tagged frame reads back as its channel and payload, and whatever followed
/// it is left over.
pub proof fn a_tagged_frame_reads_back(channel: Channel, payload: Seq<u8>, rest: Seq<u8>)
    requires
        payload.len() <= MAX_FRAME_LEN,
    ensures
        untagged(tagged(channel, payload) + rest) == Ok::<(Channel, Seq<u8>, Seq<u8>), CodecError>(
            (channel, payload, rest),
        ),
{
    a_frame_reads_back(payload, rest);
    let buf = tagged(channel, payload) + rest;
    assert(buf.skip(1) =~= framed(payload) + rest);
    assert(buf[0] == channel.wire_tag());
}

/// Whatever reads as a frame is the frame of its payload followed by the
/// remainder: no other bytes read as that payload and remainder.
pub proof fn what_reads_is_a_frame(buf: Seq<u8>)
    ensures
        match deframed(buf) {
            Ok((payload, rest)) => payload.len() <= MAX_FRAME_LEN && buf == framed(payload) + rest,
            Err(_) => true,
        },
{
    if let Ok((payload, rest)) = deframed(buf) {
        let n = be32_value(buf);
        assert(payload.len() == n);
        let b0 = buf[0] as nat;
        let b1 = buf[1] as nat;
        let b2 = buf[2] as nat;
        let b3 = buf[3] as nat;
        assert(n == b0 * 0x100_0000 + b1 * 0x1_0000 + b2 * 0x100 + b3);
        assert(n % 0x100 == b3);
        assert(n / 0x100 == b0 * 0x1_0000 + b1 * 0x100 + b2);
        assert(n / 0x100 % 0x100 == b2);
        assert(n / 0x1_0000 == b0 * 0x100 + b1);
        assert(n / 0x1_0000 % 0x100 == b1);
        assert(n / 0x100_0000 == b0);
        assert(be32(n) =~= buf.subrange(0, 4));
        assert(buf =~= framed(payload) + rest);
    }
}

/// A channel's tag stands for that channel alone.
pub proof fn tags_and_channels_correspond(c: Channel, tag: u8)
    ensures
        Channel::of_tag(c.wire_tag()) == Some(c),
        Channel::of_tag(tag) == Some(c) ==> tag == c.wire_tag(),
{
}

/// The length is written most significant byte first: one more byte at its end shifts
/// the others one place to the front.
pub proof fn a_further_byte_shifts_the_others_to_the_front(n: nat, low: u8)
    requires
        n < 0x100_0000,
    ensures
        ({
            let long = be32(n * 0x100 + low as nat);
            &&& long[3] == low
            &&& forall|i: int| 0 <= i < 3 ==> #[trigger] long[i] == be32(n)[i + 1]
        }),
{
    let m = n * 0x100 + low as nat;
    assert(m % 0x100 == low);
    assert(m / 0x100 == n);
    assert(m / 0x1_0000 == n / 0x100);
    assert(m / 0x100_0000 == n / 0x1_0000);
}

/// A number of one byte stands in the last of the four, behind three zeros.
pub proof fn a_short_length_stands_behind_zeros(n: nat)
    requires
        n < 0x100,
    ensures
        be32(n) == seq![0u8, 0u8, 0u8, n as u8],
{
}

/// What is framed is read back by the reader, whatever follows it in the buffer.
pub proof fn what_is_framed_is_read_back(
    payload: &[u8],
    out: Vec<u8>,
    buf: &[u8],
    rest: Seq<u8>,
    r: Result<(&[u8], &[u8]), CodecError>,
)
    requires
        call_ensures(frame, (payload,), Ok(out)),
        buf@ == out@ + rest,
        call_ensures(decode_frame, (buf,), r),
    ensures
        r is Ok,
        (r->Ok_0).0@ == payload@,
        (r->Ok_0).1@ == rest,
{
    a_frame_reads_back(payload@, rest);
}

/// A payload is framed exactly where a reader accepts its length, and an oversized one
/// is refused alike by both ends, with its length.
pub proof fn both_ends_keep_the_same_limit(
    payload: &[u8],
    w: Result<Vec<u8>, CodecError>,
    buf: &[u8],
    r: Result<(&[u8], &[u8]), CodecError>,
)
    requires
        payload@.len() < 0x1_0000_0000,
        buf@ == be32(payload@.len()) + payload@,
        call_ensures(frame, (payload,), w),
        call_ensures(decode_frame, (buf,), r),
    ensures
        w is Ok <==> r is Ok,
        w is Err ==> w->Err_0 == r->Err_0,
        w is Err ==> w->Err_0 == (CodecError::FrameTooLarge { len: payload@.len() as usize }),
        w is Ok ==> (w->Ok_0)@ == buf@ && (w->Ok_0)@.len() == LEN_PREFIX_BYTES + payload@.len(),
{
    be32_reads_back(payload@.len(), payload@);
    if payload@.len() <= MAX_FRAME_LEN {
        a_frame_reads_back(payload@, Seq::empty());
        assert(framed(payload@) + Seq::<u8>::empty() =~= buf@);
    }
}

/// A frame that is cut off is refused as short, with the bytes there and a larger
/// number that the whole frame has, never read as something else.
pub proof fn a_cut_frame_is_short(payload: Seq<u8>, n: int)
    requires
        payload.len() <= MAX_FRAME_LEN,
        0 <= n < framed(payload).len(),
    ensures
        deframed(framed(payload).take(n)) is Err,
        deframed(framed(payload).take(n))->Err_0 is ShortBuffer,
        deframed(framed(payload).take(n))->Err_0->have == n,
        n < deframed(framed(payload).take(n))->Err_0->need <= framed(payload).len(),
        n >= 4 ==> deframed(framed(payload).take(n))->Err_0->need == framed(payload).len(),
{
    be32_reads_back(payload.len(), payload);
    let cut = framed(payload).take(n);
    if n >= 4 {
        assert(be32_value(cut) == be32_value(framed(payload)));
    }
}

/// A tagged frame that is cut off is refused as short as well.
pub proof fn a_cut_tagged_frame_is_short(channel: Channel, payload: Seq<u8>, n: int)
    requires
        payload.len() <= MAX_FRAME_LEN,
        0 <= n < tagged(channel, payload).len(),
    ensures
        untagged(tagged(channel, payload).take(n)) is Err,
        untagged(tagged(channel, payload).take(n))->Err_0 is ShortBuffer,
{
    let cut = tagged(channel, payload).take(n);
    if n > 0 {
        assert(cut.skip(1) =~= framed(payload).take(n - 1));
        a_cut_frame_is_short(payload, n - 1);
    }
}

/// A byte that is no channel's tag is refused as such, whatever follows it; the tag is
/// judged before the frame.
pub proof fn an_unknown_tag_is_refused_first(buf: Seq<u8>)
    requires
        buf.len() > 0,
    ensures
        (forall|c: Channel| #[trigger] c.wire_tag() != buf[0]) <==> untagged(buf)
            == Err::<(Channel, Seq<u8>, Seq<u8>), CodecError>(CodecError::UnknownChannel(buf[0])),
{
    if forall|c: Channel| #[trigger] c.wire_tag() != buf[0] {
        assert(Channel::Control.wire_tag() != buf[0]);
        assert(Channel::Heartbeat.wire_tag() != buf[0]);
        assert(Channel::Log.wire_tag() != buf[0]);
        assert(Channel::Metering.wire_tag() != buf[0]);
    } else {
        let c = choose|c: Channel| #[trigger] c.wire_tag() == buf[0];
        tags_and_channels_correspond(c, buf[0]);
    }
}

/// The tags count the channels from zero, in the order in which they are declared, and
/// reading a tag gives the channel that writes it.
pub proof fn the_tags_count_the_channels(
    control: u8,
    heartbeat: u8,
    log: u8,
    metering: u8,
    c: Channel,
    tag: u8,
    r: Result<Channel, CodecError>,
)
    requires
        call_ensures(Channel::tag, (Channel::Control,), control),
        call_ensures(Channel::tag, (Channel::Heartbeat,), heartbeat),
        call_ensures(Channel::tag, (Channel::Log,), log),
        call_ensures(Channel::tag, (Channel::Metering,), metering),
        call_ensures(Channel::tag, (c,), tag),
        call_ensures(Channel::from_tag, (tag,), r),
    ensures
        control == 0,
        heartbeat == control + 1,
        log == heartbeat + 1,
        metering == log + 1,
        r == Ok::<Channel, CodecError>(c),
{
}

/// A tagged frame is what the bare frame is, behind one byte.
pub proof fn a_tag_goes_before_the_bare_frame(channel: Channel, other: Channel, payload: Seq<u8>)
    ensures
        tagged(channel, payload).skip(1) == framed(payload),
        tagged(channel, payload).len() == framed(payload).len() + 1,
        tagged(channel, payload) == tagged(other, payload) ==> channel == other,
{
    assert(tagged(channel, payload).skip(1) =~= framed(payload));
    assert(tagged(channel, payload)[0] == channel.wire_tag());
    assert(tagged(other, payload)[0] == other.wire_tag());
}

} // verus!
