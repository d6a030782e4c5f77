//! Canonical wire vectors: one deterministic envelope per message shape,
//! serialized to bytes by the schema's encoder.
use crate::proto::codec::a_frame_reads_back;
use crate::proto::codec::a_tagged_frame_reads_back;
use crate::proto::codec::deframed;
use crate::proto::codec::framed;
use crate::proto::codec::tagged;
use crate::proto::codec::untagged;
use crate::proto::codec::Channel;
use crate::proto::codec::CodecError;
use crate::proto::codec::MAX_FRAME_LEN;
use crate::proto::v1::Envelope;
use prost::DecodeError;
use vstd::prelude::*;

verus! {

/// A single named vector: canonical serialized bytes of one envelope.
#[derive(Debug, Clone)]
pub struct GoldenVector {
    /// Stable identifier; the checked-in file is `<name>.bin`.
    pub name: &'static str,
    /// Canonical serialized envelope bytes.
    pub bytes: Vec<u8>,
}

/// A tag padded on the right with `0` to the 26 characters of a ULID.
pub open spec fn padded(tag: Seq<char>) -> Seq<char> {
    if tag.len() >= 26 {
        tag
    } else {
        tag + Seq::new((26 - tag.len()) as nat, |i: int| '0')
    }
}

/// The body-less envelope of the header vector.
pub open spec fn is_header(e: Envelope) -> bool {
    &&& e.protocol_version == 1
    &&& e.msg_id@ == padded("ENVHDR"@)
    &&& e.correlation_id@ == Seq::<char>::empty()
    &&& e.timestamp_ms == 1_700_000_000_000
    &&& e.body is None
}

/// Whether a vector is the header vector as an encoder writes it.
pub open spec fn is_header_vector<F: Fn(&Envelope) -> Vec<u8>>(
    encode: F,
    v: GoldenVector,
) -> bool {
    &&& v.name@ == "envelope_header"@
    &&& exists|e: Envelope| #[trigger] is_header(e) && encode.ensures((&e,), v.bytes)
}

/// Whether two envelopes without a body have the same header.
pub open spec fn same_header(a: Envelope, b: Envelope) -> bool {
    &&& a.protocol_version == b.protocol_version
    &&& a.msg_id@ == b.msg_id@
    &&& a.correlation_id@ == b.correlation_id@
    &&& a.timestamp_ms == b.timestamp_ms
    &&& a.body is None
    &&& b.body is None
}

/// Whether an encoder writes a header by what it says, and by nothing else.
pub open spec fn writes_what_it_says<F: Fn(&Envelope) -> Vec<u8>>(encode: F) -> bool {
    forall|a: Envelope, x: Vec<u8>, b: Envelope, y: Vec<u8>|
        same_header(a, b) && #[trigger] encode.ensures((&a,), x) && #[trigger] encode.ensures(
            (&b,),
            y,
        ) ==> x@ == y@
}

/// Whether an encoder writes a header by what it says, and a decoder reads every
/// header so written back.
pub open spec fn inverts<
    F: Fn(&Envelope) -> Vec<u8>,
    G: Fn(&[u8]) -> Result<Envelope, DecodeError>,
>(encode: F, decode: G) -> bool {
    &&& writes_what_it_says(encode)
    &&& forall|a: Envelope, x: Vec<u8>, bytes: &[u8], r: Result<Envelope, DecodeError>|
        a.body is None && #[trigger] encode.ensures((&a,), x) && bytes@ == x@
            && #[trigger] decode.ensures((bytes,), r) ==> r is Ok && same_header(a, r->Ok_0)
}

/// A deterministic 26-character ULID-shaped identifier, right-padded with `0`
/// for readability.
fn ulid(tag: &str) -> (s: String)
    ensures
        s@ == padded(tag@),
{
    let chars = crate::text::chars_of(tag);
    let mut s = tag.to_owned();
    let mut n: usize = chars.len();
    while n < 26
        invariant
            chars@ == tag@,
            n >= chars@.len(),
            chars@.len() <= 26 ==> n <= 26,
            chars@.len() >= 26 ==> n == chars@.len(),
            s@ == tag@ + Seq::new((n - chars@.len()) as nat, |i: int| '0'),
        decreases 26 - n,
    {
        s.push('0');
        proof {
            assert(s@ =~= tag@ + Seq::new((n + 1 - chars@.len()) as nat, |i: int| '0'));
        }
        n = n + 1;
    }
    proof {
        assert(s@ =~= padded(tag@));
    }
    s
}

/// The canonical set of vectors for the current schema, each serialized by
/// `encode`.
#[must_use]
pub fn vectors<F: Fn(&Envelope) -> Vec<u8>>(encode: F) -> (v: Vec<GoldenVector>)
    requires
        forall|e: Envelope| is_header(e) ==> #[trigger] encode.requires((&e,)),
    ensures
        v@.len() == 1,
        is_header_vector(encode, v@[0]),
        forall|i: int, j: int|
            0 <= i < j < v@.len() ==> (#[trigger] v@[i]).name@ != (#[trigger] v@[j]).name@,
{
    let mut v: Vec<GoldenVector> = Vec::new();
    v.push(envelope_header(encode));
    v
}

/// A body-less envelope: the frozen header and framing on their own.
fn envelope_header<F: Fn(&Envelope) -> Vec<u8>>(encode: F) -> (v: GoldenVector)
    requires
        forall|e: Envelope| is_header(e) ==> #[trigger] encode.requires((&e,)),
    ensures
        is_header_vector(encode, v),
{
    let envelope = Envelope {
        protocol_version: 1,
        msg_id: ulid("ENVHDR"),
        correlation_id: String::new(),
        timestamp_ms: 1_700_000_000_000,
        body: None,
    };
    let bytes = encode(&envelope);
    proof {
        assert(is_header(envelope) && encode.ensures((&envelope,), bytes));
    }
    GoldenVector { name: "envelope_header", bytes }
}

/// Both directions of a codec hold on a vector: under a decoder that inverts the
/// encoder it decodes to the header that it was written from, and that header is
/// written with the same bytes again.
pub proof fn a_vector_round_trips<
    F: Fn(&Envelope) -> Vec<u8>,
    G: Fn(&[u8]) -> Result<Envelope, DecodeError>,
>(
    encode: F,
    decode: G,
    v: GoldenVector,
    bytes: &[u8],
    decoded: Result<Envelope, DecodeError>,
    again: Vec<u8>,
)
    requires
        inverts(encode, decode),
        is_header_vector(encode, v),
        bytes@ == v.bytes@,
        decode.ensures((bytes,), decoded),
        decoded is Ok ==> encode.ensures((&decoded->Ok_0,), again),
    ensures
        decoded is Ok,
        is_header(decoded->Ok_0),
        again@ == v.bytes@,
{
    let e = choose|e: Envelope| #[trigger] is_header(e) && encode.ensures((&e,), v.bytes);
    assert(encode.ensures((&e,), v.bytes));
    assert(same_header(e, decoded->Ok_0));
}

/// Vectors are reproducible: two calls give the same name and, under an encoder that
/// writes a header by what it says, the same bytes.
pub proof fn vectors_are_reproducible<F: Fn(&Envelope) -> Vec<u8>>(
    encode: F,
    a: GoldenVector,
    b: GoldenVector,
)
    requires
        writes_what_it_says(encode),
        is_header_vector(encode, a),
        is_header_vector(encode, b),
    ensures
        a.name@ == b.name@,
        a.bytes@ == b.bytes@,
{
    let x = choose|e: Envelope| #[trigger] is_header(e) && encode.ensures((&e,), a.bytes);
    let y = choose|e: Envelope| #[trigger] is_header(e) && encode.ensures((&e,), b.bytes);
    assert(same_header(x, y));
    assert(encode.ensures((&x,), a.bytes) && encode.ensures((&y,), b.bytes));
}

/// A vector survives framing in both forms: the frame reads back as its bytes, with
/// nothing left over.
pub proof fn a_vector_survives_framing(v: GoldenVector, channel: Channel)
    requires
        v.bytes@.len() <= MAX_FRAME_LEN,
    ensures
        deframed(framed(v.bytes@)) == Ok::<(Seq<u8>, Seq<u8>), CodecError>(
            (v.bytes@, Seq::empty()),
        ),
        untagged(tagged(channel, v.bytes@)) == Ok::<(Channel, Seq<u8>, Seq<u8>), CodecError>(
            (channel, v.bytes@, Seq::empty()),
        ),
{
    let bytes = v.bytes@;
    a_frame_reads_back(bytes, Seq::empty());
    a_tagged_frame_reads_back(channel, bytes, Seq::empty());
    assert(framed(bytes) + Seq::<u8>::empty() =~= framed(bytes));
    assert(tagged(channel, bytes) + Seq::<u8>::empty() =~= tagged(channel, bytes));
}

/// The header of a vector is one that an agent of this schema writes: of the version that
/// it speaks, with an identity of the width of its own, that answers nothing.
pub proof fn a_header_is_of_the_spoken_schema(e: Envelope)
    requires
        is_header(e),
    ensures
        e.protocol_version == crate::hostd::wire::PROTOCOL_VERSION,
        e.msg_id@.len() == 26,
        "ENVHDR"@.is_prefix_of(e.msg_id@),
        e.correlation_id@.len() == 0,
        e.body is None,
{
    reveal_strlit("ENVHDR");
    let tag = "ENVHDR"@;
    assert(tag =~= padded(tag).subrange(0, tag.len() as int));
}

/// Padding keeps the tag in front and reaches the width exactly, and tags of the width or
/// more are not cut.
pub proof fn padding_keeps_the_tag(tag: Seq<char>)
    ensures
        tag.is_prefix_of(padded(tag)),
        tag.len() <= 26 ==> padded(tag).len() == 26,
        tag.len() >= 26 ==> padded(tag) == tag,
        forall|i: int| tag.len() <= i < padded(tag).len() ==> #[trigger] padded(tag)[i] == '0',
{
    assert(tag =~= padded(tag).subrange(0, tag.len() as int));
}

} // verus!
