//! Spans of time with nanosecond resolution.

use vstd::prelude::*;

verus! {

/// The nanoseconds in a millisecond.
pub const NANOS_PER_MILLI: u128 = 1_000_000;

/// The nanoseconds in a second.
pub const NANOS_PER_SEC: u128 = 1_000_000_000;

/// A span of time, counted in whole nanoseconds.
#[derive(Clone, Copy, Debug, PartialEq, Eq, PartialOrd, Ord, Hash, Structural)]
pub struct Interval {
    pub nanos: u128,
}

impl View for Interval {
    type V = nat;

    open spec fn view(&self) -> nat {
        self.nanos as nat
    }
}

/// `v` moved into the range from `min` to `max`.
pub open spec fn clamp_int(v: int, min: int, max: int) -> int
    recommends
        min <= max,
{
    if v < min {
        min
    } else if v > max {
        max
    } else {
        v
    }
}

impl Interval {
    /// The span of that many nanoseconds.
    pub fn from_nanos(nanos: u128) -> (r: Interval)
        ensures
            r@ == nanos,
    {
        Interval { nanos }
    }

    /// The span of that many milliseconds.
    pub fn from_millis(millis: u64) -> (r: Interval)
        ensures
            r@ == millis * NANOS_PER_MILLI,
    {
        Interval { nanos: millis as u128 * NANOS_PER_MILLI }
    }

    /// The span of that many seconds.
    pub fn from_secs(secs: u64) -> (r: Interval)
        ensures
            r@ == secs * NANOS_PER_SEC,
    {
        Interval { nanos: secs as u128 * NANOS_PER_SEC }
    }

    /// The number of nanoseconds in the span.
    pub fn as_nanos(&self) -> (n: u128)
        ensures
            n == self@,
    {
        self.nanos
    }

    /// The number of whole milliseconds in the span.
    pub fn as_millis(&self) -> (n: u128)
        ensures
            n == self@ / (NANOS_PER_MILLI as nat),
    {
        self.nanos / NANOS_PER_MILLI
    }

    /// The number of whole seconds in the span.
    pub fn as_secs(&self) -> (n: u128)
        ensures
            n == self@ / (NANOS_PER_SEC as nat),
    {
        self.nanos / NANOS_PER_SEC
    }

    /// The nanoseconds of the span beyond its whole seconds.
    pub fn subsec_nanos(&self) -> (n: u32)
        ensures
            n == self@ % (NANOS_PER_SEC as nat),
    {
        (self.nanos % NANOS_PER_SEC) as u32
    }

    /// The span moved into the range from `min` to `max`.
    pub fn clamp(self, min: Interval, max: Interval) -> (r: Interval)
        requires
            min@ <= max@,
        ensures
            r@ == clamp_int(self@ as int, min@ as int, max@ as int),
    {
        if self.nanos < min.nanos {
            min
        } else if self.nanos > max.nanos {
            max
        } else {
            self
        }
    }
}

} // verus!
