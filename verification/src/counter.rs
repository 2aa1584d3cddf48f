//! The collision event counter.
//!
//! A single counter per simulation run accumulates one unit per detected
//! collision event, wall or block-block.  It starts at zero, moves only
//! upward, and only through [`CollisionCounter::record_event`], so its reading
//! can never overstate or understate the events recorded.

use vstd::prelude::*;

verus! {

/// Running total of collision events.
#[derive(Clone, Copy, Debug)]
pub struct CollisionCounter {
    total: u64,
}

impl View for CollisionCounter {
    type V = u64;

    closed spec fn view(&self) -> u64 {
        self.total
    }
}

impl CollisionCounter {
    /// A fresh counter reads zero.
    pub fn new() -> (r: CollisionCounter)
        ensures
            r@ == 0,
    {
        CollisionCounter { total: 0 }
    }

    /// Records one collision event: the total rises by exactly one.
    pub fn record_event(&mut self)
        requires
            old(self)@ < u64::MAX,
        ensures
            final(self)@ == old(self)@ + 1,
    {
        self.total = self.total + 1;
    }

    /// Reads the running total; no other observable effect.
    pub fn current_total(&self) -> (r: u64)
        ensures
            r == self@,
    {
        self.total
    }
}

} // verus!
