//! The wall-clock seam that the enrollment path reads `now` from, so that a caller
//! can pin it.
use crate::domain::time::Timestamp;
use crate::wall_clock::is_reading;
use crate::wall_clock::unix_millis_now;
use vstd::prelude::*;

verus! {

/// A source of the current wall-clock time.
pub trait Clock {
    /// The current instant.
    fn now(&self) -> Timestamp;
}

/// The production clock: the system's, since the Unix epoch. A clock set before
/// the epoch reads as the epoch, which fails safe: a stale token is refused.
#[derive(Debug, Clone, Copy, PartialEq, Eq, Structural)]
pub struct SystemClock;

impl Default for SystemClock {
    fn default() -> (c: Self)
        ensures
            c == SystemClock,
    {
        SystemClock
    }
}

impl Clock for SystemClock {
    fn now(&self) -> (t: Timestamp)
        ensures
            is_reading(t@),
            t@ >= 0,
    {
        Timestamp::from_millis(unix_millis_now())
    }
}

/// A clock that always reports the same instant.
#[derive(Debug, Clone, Copy, PartialEq, Eq, Structural)]
pub struct FixedClock {
    now: Timestamp,
}

impl View for FixedClock {
    type V = i64;

    closed spec fn view(&self) -> i64 {
        self.now@
    }
}

impl FixedClock {
    /// A clock that reports `now`.
    #[must_use]
    pub fn new(now: Timestamp) -> (c: Self)
        ensures
            c@ == now@,
    {
        FixedClock { now }
    }
}

impl Clock for FixedClock {
    fn now(&self) -> (t: Timestamp)
        ensures
            t@ == self@,
    {
        self.now
    }
}

} // verus!
