//! A logical clock, injected into every poll.
//!
//! Tasks never consult wall-clock time themselves: whoever drives a task
//! supplies the current instant as a plain tick count.  This keeps timing
//! fully deterministic and lets both proofs and tests talk about time
//! exactly.  Ticks saturate at `u64::MAX` instead of wrapping.

use vstd::prelude::*;

verus! {

/// `a + b`, capped at `u64::MAX`.
pub open spec fn cap_add_spec(a: u64, b: u64) -> u64 {
    if a + b <= u64::MAX {
        (a + b) as u64
    } else {
        u64::MAX
    }
}

/// Saturating addition on tick counts.
pub fn cap_add(a: u64, b: u64) -> (r: u64)
    ensures
        r == cap_add_spec(a, b),
{
    if b <= u64::MAX - a {
        a + b
    } else {
        u64::MAX
    }
}

/// A monotonic logical clock.  The driver advances it by one tick per poll
/// cycle; tests advance it however they like.
pub struct Clock {
    now: u64,
}

impl Clock {
    /// The current instant, in ticks.
    pub closed spec fn time(&self) -> u64 {
        self.now
    }

    pub fn new(start: u64) -> (c: Clock)
        ensures
            c.time() == start,
    {
        Clock { now: start }
    }

    pub fn now(&self) -> (r: u64)
        ensures
            r == self.time(),
    {
        self.now
    }

    /// Advance by one tick (saturating).
    pub fn tick(&mut self)
        ensures
            final(self).time() == cap_add_spec(old(self).time(), 1),
    {
        self.now = cap_add(self.now, 1);
    }

    /// Advance by `d` ticks (saturating).
    pub fn advance(&mut self, d: u64)
        ensures
            final(self).time() == cap_add_spec(old(self).time(), d),
    {
        self.now = cap_add(self.now, d);
    }
}

} // verus!
