//! Spans of simulated time.

use vstd::prelude::*;

verus! {

/// A span of time, or a point in time counted from startup. A value is
/// well-formed when `nanos` is under one second.
#[derive(Clone, Copy, Debug, PartialEq, Eq)]
pub struct Duration {
    pub secs: u64,
    pub nanos: u32,
}

impl Duration {
    /// The whole span in nanoseconds.
    pub open spec fn total_nanos(self) -> int {
        self.secs as int * 1_000_000_000 + self.nanos as int
    }

    /// The sub-second part is under one second.
    pub open spec fn wf(self) -> bool {
        self.nanos < 1_000_000_000
    }

    /// A span of whole seconds.
    pub fn from_secs(secs: u64) -> (d: Duration)
        ensures
            d == (Duration { secs, nanos: 0 }),
            d.wf(),
            d.total_nanos() == secs as int * 1_000_000_000,
    {
        Duration { secs, nanos: 0 }
    }

    /// A span of whole milliseconds.
    pub fn from_millis(millis: u64) -> (d: Duration)
        ensures
            d == (Duration { secs: millis / 1000, nanos: ((millis % 1000) * 1_000_000) as u32 }),
            d.wf(),
            d.total_nanos() == millis as int * 1_000_000,
    {
        let sub: u32 = (millis % 1000) as u32;
        Duration { secs: millis / 1000, nanos: sub * 1_000_000 }
    }

    /// Whether the span `first` followed by the span `second` ends at or
    /// before `self`.
    pub fn covers(self, first: Duration, second: Duration) -> (r: bool)
        ensures
            r == (first.total_nanos() + second.total_nanos() <= self.total_nanos()),
    {
        let a: u128 = first.secs as u128 * 1_000_000_000u128 + first.nanos as u128;
        let b: u128 = second.secs as u128 * 1_000_000_000u128 + second.nanos as u128;
        let c: u128 = self.secs as u128 * 1_000_000_000u128 + self.nanos as u128;
        a + b <= c
    }
}

} // verus!
