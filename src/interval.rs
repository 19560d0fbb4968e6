//! A span of time counted in whole milliseconds.

use vstd::prelude::*;

verus! {

/// Milliseconds in one second.
pub const MILLIS_PER_SEC: u64 = 1000;

/// A non-negative span of time, held as a count of milliseconds.
#[derive(Clone, Copy, Debug, PartialEq, Eq, Structural)]
pub struct Interval {
    pub millis: u64,
}

impl Interval {
    /// The span of `millis` milliseconds.
    pub fn from_millis(millis: u64) -> (r: Interval)
        ensures
            r.millis == millis,
    {
        Interval { millis }
    }

    /// The span of `secs` seconds.
    pub fn from_secs(secs: u64) -> (r: Interval)
        requires
            secs * MILLIS_PER_SEC <= u64::MAX,
        ensures
            r.millis == secs * MILLIS_PER_SEC,
    {
        Interval { millis: secs * MILLIS_PER_SEC }
    }

    /// The length of the span in milliseconds.
    pub fn as_millis(&self) -> (r: u64)
        ensures
            r == self.millis,
    {
        self.millis
    }

    /// The length of the span in whole seconds, rounded down.
    pub fn as_secs(&self) -> (r: u64)
        ensures
            r == self.millis / MILLIS_PER_SEC,
    {
        self.millis / MILLIS_PER_SEC
    }
}

} // verus!
