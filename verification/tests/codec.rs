//! Frames, and the envelopes that ride them.
use loom::proto::codec::decode_frame;
use loom::proto::codec::decode_message;
use loom::proto::codec::decode_wss_frame;
use loom::proto::codec::encode_frame;
use loom::proto::codec::frame;
use loom::proto::codec::wss_frame;
use loom::proto::codec::Channel;
use loom::proto::codec::CodecError;
use loom::proto::codec::LEN_PREFIX_BYTES;
use loom::proto::codec::MAX_FRAME_LEN;
use loom::proto::golden::vectors;
use loom::proto::receive::inbound;
use loom::proto::receive::Inbound;
use loom::proto::receive::WsEvent;
use loom::proto::v1::Envelope;
use prost::Message;

/// The serialized form of an envelope's header.
#[derive(Debug, Clone, PartialEq, Default)]
struct Header {
    protocol_version: u32,
    msg_id: String,
    correlation_id: String,
    timestamp_ms: i64,
}

impl prost::Message for Header {
    fn encoded_len(&self) -> usize {
        prost::encoding::uint32::encoded_len(1, &self.protocol_version)
            + prost::encoding::string::encoded_len(2, &self.msg_id)
            + prost::encoding::string::encoded_len(3, &self.correlation_id)
            + prost::encoding::int64::encoded_len(4, &self.timestamp_ms)
    }

    fn encode_raw(&self, buf: &mut impl prost::bytes::BufMut) {
        prost::encoding::uint32::encode(1, &self.protocol_version, buf);
        prost::encoding::string::encode(2, &self.msg_id, buf);
        prost::encoding::string::encode(3, &self.correlation_id, buf);
        prost::encoding::int64::encode(4, &self.timestamp_ms, buf);
    }

    fn merge_field(
        &mut self,
        tag: u32,
        wire_type: prost::encoding::WireType,
        buf: &mut impl prost::bytes::Buf,
        ctx: prost::encoding::DecodeContext,
    ) -> Result<(), prost::DecodeError> {
        match tag {
            1 => prost::encoding::uint32::merge(wire_type, &mut self.protocol_version, buf, ctx),
            2 => prost::encoding::string::merge(wire_type, &mut self.msg_id, buf, ctx),
            3 => prost::encoding::string::merge(wire_type, &mut self.correlation_id, buf, ctx),
            4 => prost::encoding::int64::merge(wire_type, &mut self.timestamp_ms, buf, ctx),
            _ => prost::encoding::skip_field(wire_type, tag, buf, ctx),
        }
    }

    fn clear(&mut self) {
        *self = Header::default();
    }
}

fn header_of(e: &Envelope) -> Header {
    assert!(e.body.is_none());
    Header {
        protocol_version: e.protocol_version,
        msg_id: e.msg_id.clone(),
        correlation_id: e.correlation_id.clone(),
        timestamp_ms: e.timestamp_ms,
    }
}

fn envelope_of(h: Header) -> Envelope {
    Envelope {
        protocol_version: h.protocol_version,
        msg_id: h.msg_id,
        correlation_id: h.correlation_id,
        timestamp_ms: h.timestamp_ms,
        body: None,
    }
}

fn encode(e: &Envelope) -> Vec<u8> {
    header_of(e).encode_to_vec()
}

fn decode(payload: &[u8]) -> Result<Envelope, prost::DecodeError> {
    Header::decode(payload).map(envelope_of)
}

fn sample_envelope() -> Envelope {
    Envelope {
        protocol_version: 1,
        msg_id: "01J0000000000000000000CODE".to_string(),
        correlation_id: String::new(),
        timestamp_ms: 1_700_000_000_000,
        body: None,
    }
}

#[test]
fn channel_tags_round_trip() {
    for channel in [
        Channel::Control,
        Channel::Heartbeat,
        Channel::Log,
        Channel::Metering,
    ] {
        let parsed = Channel::from_tag(channel.tag()).expect("known tag parses");
        assert_eq!(parsed, channel);
    }
    assert!(matches!(
        Channel::from_tag(4),
        Err(CodecError::UnknownChannel(4))
    ));
}

#[test]
fn bare_frame_round_trips_and_leaves_remainder() {
    let payload = b"hello wire".as_slice();
    let mut framed = frame(payload).expect("frame");
    framed.extend_from_slice(b"trailing");

    let (got, rest) = decode_frame(&framed).expect("deframe");
    assert_eq!(got, payload);
    assert_eq!(rest, b"trailing");
}

#[test]
fn wss_frame_carries_channel_and_message() {
    let envelope = sample_envelope();
    let len = header_of(&envelope).encoded_len();
    let framed = wss_frame(Channel::Control, len, || encode(&envelope)).expect("wss frame");

    let (channel, payload, rest) = decode_wss_frame(&framed).expect("wss deframe");
    assert_eq!(channel, Channel::Control);
    assert!(rest.is_empty());

    let decoded: Envelope = decode_message(payload, decode).expect("decode envelope");
    assert_eq!(decoded, envelope);
}

#[test]
fn short_buffer_is_detected() {
    assert!(matches!(
        decode_frame(&[0, 0]),
        Err(CodecError::ShortBuffer { .. })
    ));
    // Declares 4 payload bytes but supplies only 1.
    assert!(matches!(
        decode_frame(&[0, 0, 0, 4, 0xAA]),
        Err(CodecError::ShortBuffer { .. })
    ));
}

#[test]
fn oversized_length_prefix_is_rejected() {
    let huge = u32::try_from(MAX_FRAME_LEN + 1)
        .expect("MAX_FRAME_LEN + 1 fits in u32")
        .to_be_bytes();
    assert!(matches!(
        decode_frame(&huge),
        Err(CodecError::FrameTooLarge { .. })
    ));
}

#[test]
fn malformed_payload_is_a_decode_error() {
    // Field 1, wire type 0 (varint) tag followed by a truncated varint: valid
    // framing but not a decodable envelope.
    let payload = [0x08u8, 0xFF];
    assert!(matches!(
        decode_message(&payload, decode),
        Err(CodecError::Decode(_))
    ));
}

/// A message that reports one byte past the cap but panics if anything ever tries to
/// serialize it: oversized frames are rejected on the length alone.
#[derive(Debug)]
struct Oversized;

impl prost::Message for Oversized {
    fn encoded_len(&self) -> usize {
        MAX_FRAME_LEN + 1
    }

    fn encode_raw(&self, _buf: &mut impl prost::bytes::BufMut) {
        panic!("preflight must reject before encoding");
    }

    fn merge_field(
        &mut self,
        _tag: u32,
        _wire_type: prost::encoding::WireType,
        _buf: &mut impl prost::bytes::Buf,
        _ctx: prost::encoding::DecodeContext,
    ) -> Result<(), prost::DecodeError> {
        unreachable!("the oversized fixture is never decoded");
    }

    fn clear(&mut self) {}
}

#[test]
fn oversized_message_is_rejected_before_encoding() {
    assert!(matches!(
        encode_frame(Oversized.encoded_len(), || Oversized.encode_to_vec()),
        Err(CodecError::FrameTooLarge { len }) if len == MAX_FRAME_LEN + 1
    ));
    assert!(matches!(
        wss_frame(Channel::Control, Oversized.encoded_len(), || Oversized.encode_to_vec()),
        Err(CodecError::FrameTooLarge { len }) if len == MAX_FRAME_LEN + 1
    ));
}

/// The canonical bytes decode as an envelope and re-encode byte-identically.
#[test]
fn vectors_round_trip_through_decode() {
    for vector in vectors(encode) {
        let decoded = decode(vector.bytes.as_slice()).unwrap_or_else(|err| {
            panic!("golden vector `{}` failed to decode: {err}", vector.name)
        });
        let re_encoded = encode(&decoded);
        assert_eq!(
            re_encoded, vector.bytes,
            "re-encoding golden vector `{}` was not byte-identical",
            vector.name
        );
    }
}

/// Each vector survives a full framing round-trip on both transports.
#[test]
fn vectors_survive_framing() {
    for vector in vectors(encode) {
        let envelope = decode(vector.bytes.as_slice())
            .unwrap_or_else(|err| panic!("decode `{}`: {err}", vector.name));
        let len = header_of(&envelope).encoded_len();

        // A bare length-prefixed frame.
        let framed = encode_frame(len, || encode(&envelope)).expect("frame");
        let (payload, rest) = decode_frame(&framed).expect("deframe");
        assert!(
            rest.is_empty(),
            "unexpected trailing bytes for `{}`",
            vector.name
        );
        assert_eq!(payload, vector.bytes.as_slice());

        // A channel-tagged frame.
        let wss = wss_frame(Channel::Control, len, || encode(&envelope)).expect("wss frame");
        let (channel, wss_payload, wss_rest) = decode_wss_frame(&wss).expect("wss deframe");
        assert_eq!(channel, Channel::Control);
        assert!(wss_rest.is_empty());
        assert_eq!(wss_payload, vector.bytes.as_slice());
    }
}

#[test]
fn the_header_vector_is_right_padded() {
    let all = vectors(encode);
    assert_eq!(all.len(), 1);
    assert_eq!(all[0].name, "envelope_header");
    let header = decode(&all[0].bytes).expect("decode");
    assert_eq!(header.protocol_version, 1);
    assert_eq!(header.msg_id, "ENVHDR00000000000000000000");
    assert_eq!(header.correlation_id, "");
    assert_eq!(header.timestamp_ms, 1_700_000_000_000);
}

#[test]
fn a_frame_is_its_length_and_its_bytes() {
    assert_eq!(LEN_PREFIX_BYTES, 4);
    assert_eq!(MAX_FRAME_LEN, 8_388_608);
    assert_eq!(frame(b"abc").expect("frame"), vec![0, 0, 0, 3, b'a', b'b', b'c']);
    let long = vec![7u8; 0x1_0203];
    assert_eq!(&frame(&long).expect("frame")[..4], &[0, 1, 2, 3]);
    let most = vec![0u8; MAX_FRAME_LEN];
    assert_eq!(&frame(&most).expect("frame")[..4], &[0, 0x80, 0, 0]);
    let over = vec![0u8; MAX_FRAME_LEN + 1];
    assert!(matches!(
        frame(&over),
        Err(CodecError::FrameTooLarge { len }) if len == MAX_FRAME_LEN + 1
    ));
    assert_eq!(
        wss_frame(Channel::Log, 1, || vec![9]).expect("frame"),
        vec![2, 0, 0, 0, 1, 9]
    );
}

#[test]
fn a_short_frame_says_what_it_needs() {
    assert!(matches!(
        decode_frame(&[0, 0, 0, 4, 0xAA]),
        Err(CodecError::ShortBuffer { need: 8, have: 5 })
    ));
    assert!(matches!(
        decode_frame(&[0, 0]),
        Err(CodecError::ShortBuffer { need: 4, have: 2 })
    ));
    assert!(matches!(
        decode_wss_frame(&[]),
        Err(CodecError::ShortBuffer { need: 1, have: 0 })
    ));
    assert!(matches!(
        decode_wss_frame(&[9, 0, 0, 0, 0]),
        Err(CodecError::UnknownChannel(9))
    ));
}

#[test]
fn what_the_stream_yields_is_told_apart() {
    let framed = wss_frame(Channel::Heartbeat, 2, || vec![1, 2]).expect("frame");
    assert!(matches!(
        inbound(WsEvent::Binary(framed.clone())),
        Inbound::Frame(Channel::Heartbeat, payload) if payload == vec![1, 2]
    ));
    let mut more = framed;
    more.extend_from_slice(&[0, 0]);
    assert!(matches!(
        inbound(WsEvent::Binary(more)),
        Inbound::Violation(text) if text == "2 trailing bytes after control frame"
    ));
    assert!(matches!(
        inbound(WsEvent::Text),
        Inbound::Violation(text) if text == "unexpected text frame on binary control channel"
    ));
    assert!(matches!(
        inbound(WsEvent::Binary(vec![5, 0, 0, 0, 0])),
        Inbound::Malformed(CodecError::UnknownChannel(5))
    ));
    assert!(matches!(inbound(WsEvent::Keepalive), Inbound::Skip));
    assert!(matches!(inbound(WsEvent::Close(None)), Inbound::Closed(None)));
    assert!(matches!(
        inbound(WsEvent::Close(Some(String::new()))),
        Inbound::Closed(None)
    ));
    assert!(matches!(
        inbound(WsEvent::Close(Some("bye".to_owned()))),
        Inbound::Closed(Some(reason)) if reason == "bye"
    ));
    assert!(matches!(inbound(WsEvent::End), Inbound::Closed(None)));
    assert!(matches!(
        inbound(WsEvent::Failed("reset".to_owned())),
        Inbound::Failed(why) if why == "reset"
    ));
}

#[test]
fn two_calls_give_the_same_vectors() {
    let first = vectors(encode);
    let second = vectors(encode);
    assert_eq!(first.len(), second.len());
    for (a, b) in first.iter().zip(&second) {
        assert_eq!(a.name, b.name);
        assert_eq!(a.bytes, b.bytes);
    }
}
