//! Spans of time with nanosecond resolution.
//!
//! An [`Interval`] is a plain count of nanoseconds, so that countdowns and
//! elapsed times can be computed and reasoned about exactly.

use vstd::prelude::*;

verus! {

/// Number of nanoseconds in one second.
pub const NANOS_PER_SEC: u128 = 1_000_000_000;

/// Number of nanoseconds in one millisecond.
pub const NANOS_PER_MILLI: u128 = 1_000_000;

/// A non-negative span of time, or a reading of a monotonic clock taken as the
/// span since a fixed origin.
#[derive(Clone, Copy, Debug, PartialEq, Eq, Structural)]
pub struct Interval {
    /// Length of the span in nanoseconds.
    pub nanos: u128,
}

impl Interval {
    /// What remains of `self` after `rhs` has passed: the difference, or zero
    /// where `rhs` is the longer span.
    pub open spec fn spec_saturating_sub(self, rhs: Interval) -> Interval {
        if self.nanos >= rhs.nanos {
            Interval { nanos: (self.nanos - rhs.nanos) as u128 }
        } else {
            Interval { nanos: 0 }
        }
    }

    /// The span of zero length.
    pub fn zero() -> (r: Self)
        ensures
            r.nanos == 0,
    {
        Interval { nanos: 0 }
    }

    /// A span of `nanos` nanoseconds.
    pub fn from_nanos(nanos: u128) -> (r: Self)
        ensures
            r.nanos == nanos,
    {
        Interval { nanos }
    }

    /// A span of `millis` milliseconds.
    pub fn from_millis(millis: u64) -> (r: Self)
        ensures
            r.nanos == millis * NANOS_PER_MILLI,
    {
        Interval { nanos: (millis as u128) * NANOS_PER_MILLI }
    }

    /// A span of `secs` whole seconds.
    pub fn from_secs(secs: u64) -> (r: Self)
        ensures
            r.nanos == secs * NANOS_PER_SEC,
    {
        Interval { nanos: (secs as u128) * NANOS_PER_SEC }
    }

    /// The length of the span in nanoseconds.
    pub fn as_nanos(&self) -> (n: u128)
        ensures
            n == self.nanos,
    {
        self.nanos
    }

    /// The number of whole milliseconds in the span.
    pub fn as_millis(&self) -> (m: u128)
        ensures
            m == self.nanos / NANOS_PER_MILLI,
    {
        self.nanos / NANOS_PER_MILLI
    }

    /// Whether the span has zero length.
    pub fn is_zero(&self) -> (b: bool)
        ensures
            b == (self.nanos == 0),
    {
        self.nanos == 0
    }

    /// Subtracts `rhs`, stopping at zero.
    pub fn saturating_sub(self, rhs: Interval) -> (r: Self)
        ensures
            r == self.spec_saturating_sub(rhs),
    {
        if self.nanos >= rhs.nanos {
            Interval { nanos: self.nanos - rhs.nanos }
        } else {
            Interval { nanos: 0 }
        }
    }
}

} // verus!
