//! Spans of time, to the nanosecond.
use vstd::prelude::*;

verus! {

/// The longest span: `u64::MAX` seconds and 999,999,999 nanoseconds.
pub const MAX_NANOS: u128 = 18_446_744_073_709_551_615_999_999_999;

/// A span of time. Its view is its length in nanoseconds.
#[derive(Debug, Clone, Copy, PartialEq, Eq, Hash, PartialOrd, Ord, Structural)]
pub struct Duration {
    nanos: u128,
}

impl View for Duration {
    type V = nat;

    closed spec fn view(&self) -> nat {
        self.nanos as nat
    }
}

impl Duration {
    /// Every span can be written as whole seconds in 64 bits and a remainder.
    #[verifier::type_invariant]
    spec fn bounded(self) -> bool {
        self.nanos <= MAX_NANOS
    }

    /// The span of no time at all.
    #[must_use]
    pub fn zero() -> (d: Self)
        ensures
            d@ == 0,
    {
        Duration { nanos: 0 }
    }

    /// The span of the given milliseconds.
    #[must_use]
    pub fn from_millis(millis: u64) -> (d: Self)
        ensures
            d@ == millis * 1_000_000,
    {
        Duration { nanos: millis as u128 * 1_000_000 }
    }

    /// The span of the given seconds.
    #[must_use]
    pub fn from_secs(secs: u64) -> (d: Self)
        ensures
            d@ == secs * 1_000_000_000,
    {
        Duration { nanos: secs as u128 * 1_000_000_000 }
    }

    /// The whole milliseconds of the span.
    #[must_use]
    pub fn as_millis(&self) -> (r: u128)
        ensures
            r == self@ / 1_000_000,
    {
        self.nanos / 1_000_000
    }

    /// The nanoseconds of the span.
    #[must_use]
    pub fn as_nanos(&self) -> (r: u128)
        ensures
            r == self@,
            r <= MAX_NANOS,
    {
        proof {
            use_type_invariant(self);
        }
        self.nanos
    }

    /// The longer of two spans.
    #[must_use]
    pub fn longer(self, other: Self) -> (d: Self)
        ensures
            d@ == (if self@ >= other@ {
                self@
            } else {
                other@
            }),
    {
        if self.nanos >= other.nanos {
            self
        } else {
            other
        }
    }

    /// The span of twice this length, or `limit` where that is shorter.
    pub(crate) fn doubled_within(self, limit: Self) -> (d: Self)
        ensures
            d@ == (if 2 * self@ <= limit@ {
                2 * self@
            } else {
                limit@
            }),
    {
        proof {
            use_type_invariant(&self);
            use_type_invariant(&limit);
        }
        let twice: u128 = self.nanos * 2;
        if twice <= limit.nanos {
            Duration { nanos: twice }
        } else {
            limit
        }
    }
}

/// A span reads back in the unit that it was made of, and a second is a thousand
/// milliseconds.
pub proof fn spans_read_back(
    n: u64,
    ms: Duration,
    s: Duration,
    ms_millis: u128,
    s_millis: u128,
    ms_nanos: u128,
)
    requires
        call_ensures(Duration::from_millis, (n,), ms),
        call_ensures(Duration::from_secs, (n,), s),
        call_ensures(Duration::as_millis, (&ms,), ms_millis),
        call_ensures(Duration::as_millis, (&s,), s_millis),
        call_ensures(Duration::as_nanos, (&ms,), ms_nanos),
    ensures
        ms_millis == n,
        s_millis == n * 1000,
        ms_nanos == n * 1_000_000,
{
}

/// The whole milliseconds of a span are those that fit in it.
pub proof fn whole_milliseconds_fit_in_the_span(d: Duration, millis: u128, nanos: u128)
    requires
        call_ensures(Duration::as_millis, (&d,), millis),
        call_ensures(Duration::as_nanos, (&d,), nanos),
    ensures
        millis * 1_000_000 <= nanos < (millis + 1) * 1_000_000,
{
}

/// The longer of two spans is one of them, neither is longer than it, and the order in
/// which they are given makes no difference.
pub proof fn the_longer_is_the_maximum(a: Duration, b: Duration, r: Duration, s: Duration)
    requires
        call_ensures(Duration::longer, (a, b), r),
        call_ensures(Duration::longer, (b, a), s),
    ensures
        r@ == a@ || r@ == b@,
        r@ >= a@,
        r@ >= b@,
        r@ == s@,
{
}

} // verus!
