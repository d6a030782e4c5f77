//! A stand-in for the agent's end of the wire: the envelopes that it sends.
use crate::decimal::decimal;
use crate::decimal::unsigned;
use crate::proto::v1::Body;
use crate::proto::v1::Envelope;
use vstd::prelude::*;

verus! {

/// The messages of a fake agent: each gets the next number.
#[derive(Debug)]
pub struct FakeAgent {
    next_seq: u64,
}

impl View for FakeAgent {
    type V = u64;

    closed spec fn view(&self) -> u64 {
        self.next_seq
    }
}

/// The message identity of a number, which is written with two digits at least.
pub open spec fn fake_msg_id(seq: u64) -> Seq<char> {
    if seq < 10 {
        "01J000000000000000000FAKE0"@ + decimal(seq as nat)
    } else {
        "01J000000000000000000FAKE"@ + decimal(seq as nat)
    }
}

/// The timestamp of a number: one millisecond after the one before, and that of the
/// first for a number past the signed range.
pub open spec fn fake_timestamp(seq: u64) -> int {
    if seq <= i64::MAX {
        1_700_000_000_000 + seq
    } else {
        1_700_000_000_000
    }
}

impl FakeAgent {
    /// An agent that has sent nothing.
    #[must_use]
    pub fn new() -> (a: Self)
        ensures
            a@ == 0,
    {
        FakeAgent { next_seq: 0 }
    }

    /// Wraps `body` in an envelope with a fresh monotonic message identity.
    #[must_use]
    pub fn envelope(&mut self, body: Body) -> (e: Envelope)
        requires
            old(self)@ < u64::MAX,
            fake_timestamp(old(self)@) <= i64::MAX,
        ensures
            final(self)@ == old(self)@ + 1,
            e.protocol_version == 1,
            e.msg_id@ == fake_msg_id(old(self)@),
            e.correlation_id@ == Seq::<char>::empty(),
            e.timestamp_ms == fake_timestamp(old(self)@),
            e.body == Some(body),
    {
        let seq: u64 = self.next_seq;
        self.next_seq = seq + 1;
        let mut msg_id = if seq < 10 {
            "01J000000000000000000FAKE0".to_owned()
        } else {
            "01J000000000000000000FAKE".to_owned()
        };
        msg_id.append(unsigned(seq).as_str());
        let offset: i64 = if seq <= i64::MAX as u64 {
            seq as i64
        } else {
            0
        };
        Envelope {
            protocol_version: 1,
            msg_id,
            correlation_id: String::new(),
            timestamp_ms: 1_700_000_000_000 + offset,
            body: Some(body),
        }
    }
}

/// A fake agent's messages have identities of their own, and later ones later times.
pub proof fn fake_messages_are_told_apart(a: u64, b: u64)
    requires
        a < b <= i64::MAX,
    ensures
        fake_msg_id(a) != fake_msg_id(b),
        fake_timestamp(b) - fake_timestamp(a) == b - a,
{
    let short = "01J000000000000000000FAKE0"@;
    let long = "01J000000000000000000FAKE"@;
    reveal_strlit("01J000000000000000000FAKE0");
    reveal_strlit("01J000000000000000000FAKE");
    let da = decimal(a as nat);
    let db = decimal(b as nat);
    crate::decimal::decimal_reads_back(a as nat);
    crate::decimal::decimal_reads_back(b as nat);
    if fake_msg_id(a) == fake_msg_id(b) {
        if a < 10 && b < 10 {
            assert(fake_msg_id(a).skip(26) =~= da);
            assert(fake_msg_id(b).skip(26) =~= db);
        } else if a >= 10 {
            assert(fake_msg_id(a).skip(25) =~= da);
            assert(fake_msg_id(b).skip(25) =~= db);
        } else {
            assert(fake_msg_id(a)[25] == '0');
            assert(fake_msg_id(b)[25] == db[0]);
            crate::decimal::no_leading_zero(b as nat);
        }
    }
}

} // verus!
