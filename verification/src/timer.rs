//! The timer: the simplest non-trivial task.
//!
//! A timer captures a deadline on creation and reports `Pending` until the
//! injected instant reaches that deadline, after which it is permanently
//! ready.  Every suspension point in the combinators of this crate
//! ultimately bottoms out in a timer.

use vstd::prelude::*;
use crate::clock::{cap_add, cap_add_spec};
use crate::poll::PollResult;
use crate::task::Task;

verus! {

/// A task that becomes ready once its deadline has elapsed.
pub struct TimerTask {
    /// The instant at which the timer fires.
    pub deadline: u64,
    /// Whether the timer has already reported `Ready`.
    pub fired: bool,
}

impl TimerTask {
    /// Create a timer at instant `now` that becomes ready `duration` ticks
    /// later (saturating at the end of time).
    pub fn new(now: u64, duration: u64) -> (t: TimerTask)
        ensures
            t.inv(),
            !t.done(),
            t.deadline == cap_add_spec(now, duration),
    {
        TimerTask { deadline: cap_add(now, duration), fired: false }
    }

    /// Drive the timer once, with the timer's exact contract: it fires at
    /// instant `now` exactly when `now` has reached the deadline, and the
    /// deadline itself never changes.
    pub fn poll_elapsed(&mut self, now: u64) -> (r: PollResult<()>)
        requires
            !old(self).fired,
        ensures
            final(self).deadline == old(self).deadline,
            match r {
                PollResult::Ready(v) => final(self).fired && now >= old(self).deadline,
                PollResult::Pending => !final(self).fired && now < old(self).deadline,
            },
    {
        if now >= self.deadline {
            self.fired = true;
            PollResult::Ready(())
        } else {
            PollResult::Pending
        }
    }
}

impl Task for TimerTask {
    type Output = ();

    open spec fn inv(&self) -> bool {
        true
    }

    open spec fn done(&self) -> bool {
        self.fired
    }

    open spec fn resolved(&self, v: &()) -> bool {
        self.fired
    }

    open spec fn ready_at(&self, now: u64) -> bool {
        now >= self.deadline
    }

    fn poll(&mut self, now: u64) -> (r: PollResult<()>)
        ensures
            final(self).deadline == old(self).deadline,
            final(self).fired == (now >= old(self).deadline),
    {
        self.poll_elapsed(now)
    }
}

} // verus!
