//! A bounded stream of numbers: an asynchronous-generator shape reduced to
//! an explicit cursor.  Each pull yields the next number below the bound,
//! then the stream is exhausted and yields nothing forever.

use vstd::prelude::*;

verus! {

/// Yields `0, 1, ..., max - 1`, one number per pull, then `None`.
pub struct NumberStream {
    /// The next number to yield.
    pub current: i32,
    /// The exclusive upper bound.
    pub max: i32,
}

impl NumberStream {
    /// A stream over `0 .. max` (empty when `max <= 0`).
    pub fn new(max: i32) -> (s: NumberStream)
        ensures
            s.current == 0,
            s.max == max,
    {
        NumberStream { current: 0, max }
    }

    /// Pull the next number: yields the cursor and advances it while the
    /// cursor is below the bound, and yields nothing once it is not.
    pub fn next(&mut self) -> (r: Option<i32>)
        ensures
            old(self).current < old(self).max ==> r == Some(old(self).current)
                && final(self).current == old(self).current + 1,
            old(self).current >= old(self).max ==> r is None && final(self).current == old(
                self,
            ).current,
            final(self).max == old(self).max,
    {
        if self.current < self.max {
            let value = self.current;
            self.current = self.current + 1;
            Some(value)
        } else {
            None
        }
    }
}

} // verus!
