//! Envelope construction: a body with a fresh message identity, the schema major and
//! an advisory timestamp.
use crate::decimal::fixed;
use crate::decimal::fixed_decimal;
use crate::decimal::fixed_decimal_keeps_order;
use crate::decimal::fixed_decimal_width;
use crate::decimal::ten_to;
use crate::proto::v1::Body;
use crate::proto::v1::Envelope;
use crate::proto::v1::VersionRange;
use crate::text::text_less;
use vstd::prelude::*;

verus! {

/// The schema major that this agent speaks.
pub const PROTOCOL_VERSION: u32 = 1;

/// The version range that the agent advertises: exactly one major.
#[must_use]
pub fn supported_versions() -> (r: VersionRange)
    ensures
        r == (VersionRange { min: PROTOCOL_VERSION, max: PROTOCOL_VERSION }),
{
    VersionRange { min: PROTOCOL_VERSION, max: PROTOCOL_VERSION }
}

/// The message identity of a number: `MSG` and twenty-three digits.
pub open spec fn msg_id(n: nat) -> Seq<char> {
    "MSG"@ + fixed_decimal(n, 23)
}

/// Whether a generator at `before` mints this identity and is at `after` then.
pub open spec fn minted(before: u64, id: Seq<char>, after: u64) -> bool {
    &&& id == msg_id(before as nat)
    &&& after == before.wrapping_add(1)
}

/// Mints monotonic message identities, unique per sender per connection. A fresh
/// generator is made for each connection, so they restart at zero.
#[derive(Debug)]
pub struct MsgIdGen {
    counter: u64,
}

impl View for MsgIdGen {
    type V = u64;

    closed spec fn view(&self) -> u64 {
        self.counter
    }
}

impl Default for MsgIdGen {
    fn default() -> (g: Self)
        ensures
            g@ == 0,
    {
        MsgIdGen::new()
    }
}

impl MsgIdGen {
    /// A generator starting from zero.
    #[must_use]
    pub fn new() -> (g: Self)
        ensures
            g@ == 0,
    {
        MsgIdGen { counter: 0 }
    }

    /// The next identity, such as `MSG00000000000000000000042`. The counter wraps.
    #[must_use]
    pub fn next_id(&mut self) -> (id: String)
        ensures
            minted(old(self)@, id@, final(self)@),
            id@ == msg_id(old(self)@ as nat),
            final(self)@ == old(self)@.wrapping_add(1),
    {
        let n: u64 = self.counter;
        self.counter = n.wrapping_add(1);
        let mut id = "MSG".to_owned();
        id.append(fixed(n, 23).as_str());
        id
    }
}

/// Wraps `body` in an envelope with the given identities and advisory timestamp.
#[must_use]
pub fn envelope(msg_id: String, correlation_id: String, timestamp_ms: i64, body: Body) -> (e:
    Envelope)
    ensures
        e == (Envelope {
            protocol_version: PROTOCOL_VERSION,
            msg_id,
            correlation_id,
            timestamp_ms,
            body: Some(body),
        }),
{
    Envelope {
        protocol_version: PROTOCOL_VERSION,
        msg_id,
        correlation_id,
        timestamp_ms,
        body: Some(body),
    }
}

/// Message identities have one width, and are ordered as text the way they were
/// minted.
pub proof fn msg_ids_are_ordered_as_minted(a: u64, b: u64)
    requires
        a < b,
    ensures
        msg_id(a as nat).len() == 26,
        msg_id(b as nat).len() == 26,
        text_less(msg_id(a as nat), msg_id(b as nat)),
        msg_id(a as nat) != msg_id(b as nat),
{
    reveal_strlit("MSG");
    fixed_decimal_width(a as nat, 23);
    fixed_decimal_width(b as nat, 23);
    assert(u64::MAX < ten_to(23)) by {
        reveal_with_fuel(ten_to, 24);
    }
    fixed_decimal_keeps_order(a as nat, b as nat, 23);
    prefix_keeps_order("MSG"@, fixed_decimal(a as nat, 23), fixed_decimal(b as nat, 23));
    crate::text::text_less_irreflexive(msg_id(a as nat));
}

proof fn prefix_keeps_order(prefix: Seq<char>, x: Seq<char>, y: Seq<char>)
    requires
        text_less(x, y),
    ensures
        text_less(prefix + x, prefix + y),
    decreases prefix.len(),
{
    if prefix.len() == 0 {
        assert(prefix + x =~= x);
        assert(prefix + y =~= y);
    } else {
        let tail = prefix.skip(1);
        prefix_keeps_order(tail, x, y);
        assert((prefix + x).skip(1) =~= tail + x);
        assert((prefix + y).skip(1) =~= tail + y);
    }
}

/// Of two identities minted one after the other the later is the greater text, and both
/// have one width, for as long as the generator does not start over.
pub proof fn the_next_identity_is_greater(a: u64, x: Seq<char>, b: u64, y: Seq<char>, c: u64)
    requires
        minted(a, x, b),
        minted(b, y, c),
        a < u64::MAX,
    ensures
        b == a + 1,
        text_less(x, y),
        x != y,
        x.len() == y.len(),
        x.len() == 26,
{
    msg_ids_are_ordered_as_minted(a, b);
}

/// A generator mints every identity of its range once before it starts over: no two of
/// its states mint the same.
pub proof fn an_identity_tells_its_state(
    a: u64,
    after_a: u64,
    b: u64,
    after_b: u64,
    id: Seq<char>,
)
    requires
        minted(a, id, after_a),
        minted(b, id, after_b),
    ensures
        a == b,
        after_a == after_b,
{
    if a < b {
        msg_ids_are_ordered_as_minted(a, b);
    } else if b < a {
        msg_ids_are_ordered_as_minted(b, a);
    }
}

/// An envelope keeps what it is made of apart: its own identity, the one that it answers,
/// its time and its body; and its version is one that the agent says it speaks.
pub proof fn an_envelope_keeps_its_parts(
    id: String,
    answered: String,
    timestamp_ms: i64,
    body: Body,
    e: Envelope,
    spoken: VersionRange,
)
    requires
        call_ensures(envelope, (id, answered, timestamp_ms, body), e),
        call_ensures(supported_versions, (), spoken),
    ensures
        e.msg_id@ == id@,
        e.correlation_id@ == answered@,
        e.timestamp_ms == timestamp_ms,
        e.body == Some(body),
        spoken.min <= e.protocol_version <= spoken.max,
        spoken.min == spoken.max,
{
}

} // verus!
