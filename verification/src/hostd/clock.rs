//! The wall-clock seam: advisory time in Unix milliseconds.
use crate::wall_clock::is_reading;
use crate::wall_clock::unix_millis_now;
use vstd::prelude::*;

verus! {

/// A source of advisory wall-clock time.
pub trait WallClock {
    /// Milliseconds since the Unix epoch.
    fn now_unix_ms(&self) -> i64;
}

/// The production clock, reading the system's.
#[derive(Debug, Clone, Copy, PartialEq, Eq, Structural)]
pub struct SystemClock;

impl Default for SystemClock {
    fn default() -> (c: Self)
        ensures
            c == SystemClock,
    {
        SystemClock
    }
}

impl WallClock for SystemClock {
    fn now_unix_ms(&self) -> (millis: i64)
        ensures
            is_reading(millis),
            millis >= 0,
    {
        unix_millis_now()
    }
}

/// A clock that always reports the same time.
#[derive(Debug, Clone, Copy, PartialEq, Eq, Structural)]
pub struct FixedClock(pub i64);

impl WallClock for FixedClock {
    fn now_unix_ms(&self) -> (millis: i64)
        ensures
            millis == self.0,
    {
        self.0
    }
}

} // verus!
