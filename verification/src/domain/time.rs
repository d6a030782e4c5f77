//! Injected time.
//!
//! The domain never reads a wall clock: every rule that needs "now" takes a
//! [`Timestamp`], so a caller drives time and the rules stay deterministic.
use crate::decimal::signed;
use crate::decimal::signed_decimal;
use crate::number::clamp_i64;
use crate::number::saturate;
use vstd::prelude::*;

verus! {

/// A point in time, in whole milliseconds since an epoch that callers agree on
/// (Unix milliseconds in practice). Only order and differences matter here.
#[derive(Debug, Clone, Copy, PartialEq, Eq, Hash, PartialOrd, Ord, Structural)]
pub struct Timestamp {
    millis: i64,
}

impl View for Timestamp {
    type V = i64;

    closed spec fn view(&self) -> i64 {
        self.millis
    }
}

impl Timestamp {
    /// The timestamp of the given milliseconds since the epoch.
    #[must_use]
    pub fn from_millis(millis: i64) -> (t: Self)
        ensures
            t@ == millis,
    {
        Timestamp { millis }
    }

    /// The milliseconds since the epoch.
    #[must_use]
    pub fn as_millis(self) -> (millis: i64)
        ensures
            millis == self@,
    {
        self.millis
    }

    /// Milliseconds elapsed since `earlier`, saturating. Negative where
    /// `earlier` is in fact the later of the two.
    #[must_use]
    pub fn saturating_millis_since(self, earlier: Self) -> (millis: i64)
        ensures
            millis == clamp_i64(self@ - earlier@),
    {
        saturate(self.millis as i128 - earlier.millis as i128)
    }

    /// The timestamp as shown to a reader: the milliseconds, then `ms`.
    #[must_use]
    pub fn to_string(&self) -> (s: String)
        ensures
            s@ == signed_decimal(self@ as int) + "ms"@,
    {
        let mut s = signed(self.millis);
        s.append("ms");
        s
    }
}

/// Two timestamps with one value are the same timestamp.
pub proof fn timestamps_are_their_values(a: Timestamp, b: Timestamp)
    ensures
        a@ == b@ <==> a == b,
{
}

/// A timestamp reads back, and the time between two of them is what has to be added to the
/// earlier: forwards and backwards it differs by the sign alone, wherever it fits.
pub proof fn elapsed_time_adds_up(
    a: Timestamp,
    b: Timestamp,
    elapsed: i64,
    back: i64,
    millis: i64,
    made: Timestamp,
    read: i64,
)
    requires
        call_ensures(Timestamp::saturating_millis_since, (a, b), elapsed),
        call_ensures(Timestamp::saturating_millis_since, (b, a), back),
        call_ensures(Timestamp::from_millis, (millis,), made),
        call_ensures(Timestamp::as_millis, (made,), read),
    ensures
        read == millis,
        i64::MIN < a@ - b@ <= i64::MAX ==> b@ + elapsed == a@ && back == -elapsed,
        a@ - b@ > i64::MAX ==> elapsed == i64::MAX,
        a@ - b@ < i64::MIN ==> elapsed == i64::MIN,
        a@ > b@ <==> elapsed > 0,
        a@ == b@ <==> elapsed == 0,
{
}

/// Timestamps that are shown alike are one.
pub proof fn timestamps_are_told_apart(a: Timestamp, b: Timestamp, x: String, y: String)
    requires
        call_ensures(Timestamp::to_string, (&a,), x),
        call_ensures(Timestamp::to_string, (&b,), y),
        x@ == y@,
    ensures
        a == b,
{
    let n = signed_decimal(a@ as int);
    let m = signed_decimal(b@ as int);
    assert(n =~= x@.take(x@.len() - "ms"@.len()));
    assert(m =~= y@.take(y@.len() - "ms"@.len()));
    crate::decimal::signed_decimal_reads_back(a@ as int);
    crate::decimal::signed_decimal_reads_back(b@ as int);
}

} // verus!
