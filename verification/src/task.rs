//! The task abstraction and the driver.
//!
//! A task is a unit of deferred work: each call to [`Task::poll`] either
//! reports `Pending` or hands out the final value.  Polling is deterministic
//! in the pair (task state, instant): the specification function
//! [`Task::ready_at`] says, for the current state, at which instants a poll
//! completes the task.  The driver [`run`] polls a task to completion,
//! advancing an explicit [`Clock`] by one tick per pending poll.

use vstd::prelude::*;
use crate::clock::Clock;
use crate::clock::cap_add_spec;
use crate::poll::PollResult;

verus! {

/// A unit of deferred, pollable computation.
///
/// The contract of [`Task::poll`]:
/// * a task may only be polled while its invariant holds and it is not yet
///   done — in particular, never again after it yielded `Ready`;
/// * a poll at instant `now` yields `Ready` exactly when `ready_at(now)`
///   held of the state being polled, and the value handed out satisfies
///   [`Task::resolved`];
/// * a poll preserves the invariant.
pub trait Task: Sized {
    /// The type of the task's final value.
    type Output;

    /// Well-formedness of the task's state.  Constructors establish it and
    /// polling preserves it.
    spec fn inv(&self) -> bool;

    /// Whether the task has completed (has yielded `Ready`).
    spec fn done(&self) -> bool;

    /// Whether `v` is the final value of this (completed) task.
    spec fn resolved(&self, v: &Self::Output) -> bool;

    /// Whether a poll of this state at instant `now` completes the task.
    spec fn ready_at(&self, now: u64) -> bool;

    /// Drive the task once at instant `now`.
    fn poll(&mut self, now: u64) -> (r: PollResult<Self::Output>)
        requires
            old(self).inv(),
            !old(self).done(),
        ensures
            final(self).inv(),
            match r {
                PollResult::Ready(v) => final(self).done() && final(self).resolved(&v)
                    && old(self).ready_at(now),
                PollResult::Pending => !final(self).done() && !old(self).ready_at(now),
            },
    ;
}

/// Drive `task` until it completes, or until `budget` polls have come back
/// `Pending`.  The clock advances by one tick after every pending poll, so
/// the driver consumes exactly as many ticks as it observes pending polls.
pub fn run<T: Task>(task: &mut T, clock: &mut Clock, budget: u64) -> (r: Option<T::Output>)
    requires
        old(task).inv(),
        !old(task).done(),
    ensures
        final(task).inv(),
        match r {
            Some(v) => final(task).done() && final(task).resolved(&v),
            None => !final(task).done() && final(clock).time() == cap_add_spec(
                old(clock).time(),
                budget,
            ),
        },
        old(clock).time() <= final(clock).time(),
        final(clock).time() <= cap_add_spec(old(clock).time(), budget),
{
    let mut pending: u64 = 0;
    loop
        invariant
            task.inv(),
            !task.done(),
            pending <= budget,
            old(clock).time() <= clock.time(),
            clock.time() == cap_add_spec(old(clock).time(), pending),
        decreases budget - pending,
    {
        let now = clock.now();
        match task.poll(now) {
            PollResult::Ready(v) => {
                return Some(v);
            },
            PollResult::Pending => {
                if pending == budget {
                    return None;
                }
                pending = pending + 1;
                clock.tick();
            },
        }
    }
}

} // verus!
