//! Wraparound-safe 32-bit tick values.

use vstd::prelude::*;

verus! {

/// Number of distinct tick values.
pub open spec fn tick_range() -> int {
    0x1_0000_0000
}

/// `(a - b) mod 2^32`, always in `[0, 2^32)`.
pub open spec fn tick_diff(a: u32, b: u32) -> int {
    (a - b) % tick_range()
}

/// `a` is strictly later than `b` under the half-range rule.
pub open spec fn tick_after(a: u32, b: u32) -> bool {
    0 < tick_diff(a, b) < tick_range() / 2
}

/// A point in time measured by a free-running 32-bit tick counter.
#[derive(Clone, Copy, Debug, PartialEq, Eq, Structural)]
pub struct InstantShort {
    pub ticks: u32,
}

impl InstantShort {
    pub fn new(ticks: u32) -> (r: Self)
        ensures
            r.ticks == ticks,
    {
        InstantShort { ticks }
    }

    /// The raw tick count.
    pub fn ticks(&self) -> (r: u32)
        ensures
            r == self.ticks,
    {
        self.ticks
    }

    /// This instant moved forward by `delta` ticks, wrapping around.
    pub fn offset(self, delta: u32) -> (r: Self)
        ensures
            r.ticks as int == (self.ticks + delta) % tick_range(),
    {
        InstantShort { ticks: self.ticks.wrapping_add(delta) }
    }

    /// Ticks elapsed from `earlier` to `self`, modulo the tick range.
    pub fn since(&self, earlier: &Self) -> (r: u32)
        ensures
            r as int == tick_diff(self.ticks, earlier.ticks),
    {
        self.ticks.wrapping_sub(earlier.ticks)
    }

    /// True iff `self` is strictly later than `other`: the wrapped difference
    /// is nonzero and below half the tick range.
    pub fn after(&self, other: &Self) -> (r: bool)
        ensures
            r == tick_after(self.ticks, other.ticks),
    {
        let d = self.ticks.wrapping_sub(other.ticks);
        0 < d && d < 0x8000_0000
    }

    /// True iff `self` is at or after `deadline`: equal to it, or later by
    /// the half-range rule.
    pub fn reached(&self, deadline: &Self) -> (r: bool)
        ensures
            r == (self.ticks == deadline.ticks || tick_after(self.ticks, deadline.ticks)),
    {
        self.ticks.wrapping_sub(deadline.ticks) < 0x8000_0000
    }
}

} // verus!
