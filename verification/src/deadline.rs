//! The deadline wrapper: bound the total wait for a task.
//!
//! A deadline wrapper owns an inner task and a cut-off instant.  Every poll
//! checks the deadline *before* touching the inner task: once the injected
//! instant lies strictly beyond the cut-off, the wrapper reports a timeout
//! and drops the inner task — it is never polled again and its partial
//! progress is discarded.  This ordering is deliberate and observable: an
//! inner task that would have completed in the very poll that crossed the
//! deadline is still reported as timed out.  While the deadline has not
//! passed, polls are forwarded to the inner task unchanged.

use vstd::prelude::*;
use crate::clock::{cap_add, cap_add_spec};
use crate::poll::PollResult;
use crate::task::Task;

verus! {

/// The synthetic failure of a deadline wrapper, distinct from any failure
/// of the wrapped computation.
#[derive(Clone, Copy, PartialEq, Eq, Debug)]
pub struct TimeoutError {
}

/// Wraps a task and reports a timeout once its total wait exceeds the
/// timeout duration.
pub struct DeadlineTask<T: Task> {
    /// The wrapped task; dropped as soon as the deadline passes.
    pub inner: Option<T>,
    /// The cut-off instant: polls strictly after it time out.
    pub cutoff: u64,
    /// Whether the wrapper has reported `Ready`.
    pub finished: bool,
    /// Whether the wrapper timed out (rather than completing).
    pub timed_out: bool,
}

impl<T: Task> DeadlineTask<T> {
    /// Wrap `inner` at instant `now`: polls at instants strictly beyond
    /// `now + timeout` report a timeout.
    pub fn new(inner: T, now: u64, timeout: u64) -> (t: DeadlineTask<T>)
        requires
            inner.inv(),
            !inner.done(),
        ensures
            t.inv(),
            !t.done(),
            t.cutoff == cap_add_spec(now, timeout),
            t.inner == Some(inner),
    {
        DeadlineTask { inner: Some(inner), cutoff: cap_add(now, timeout), finished: false, timed_out: false }
    }
}

impl<T: Task> Task for DeadlineTask<T> {
    type Output = Result<T::Output, TimeoutError>;

    open spec fn inv(&self) -> bool {
        &&& !self.finished ==> {
            &&& !self.timed_out
            &&& self.inner matches Some(inner) && inner.inv() && !inner.done()
        }
        &&& self.finished && self.timed_out ==> self.inner is None
        &&& self.finished && !self.timed_out ==> (self.inner matches Some(inner) && inner.inv()
            && inner.done())
    }

    open spec fn done(&self) -> bool {
        self.finished
    }

    open spec fn resolved(&self, v: &Result<T::Output, TimeoutError>) -> bool {
        self.finished && match *v {
            Err(e) => self.timed_out,
            Ok(out) => !self.timed_out && (self.inner matches Some(inner)
                && inner.resolved(&out)),
        }
    }

    open spec fn ready_at(&self, now: u64) -> bool {
        now > self.cutoff || (self.inner matches Some(inner) && inner.ready_at(now))
    }

    fn poll(&mut self, now: u64) -> (r: PollResult<Result<T::Output, TimeoutError>>)
        ensures
            final(self).cutoff == old(self).cutoff,
            final(self).timed_out == (now > old(self).cutoff),
    {
        if now > self.cutoff {
            self.inner = None;
            self.finished = true;
            self.timed_out = true;
            return PollResult::Ready(Err(TimeoutError {  }));
        }
        match &mut self.inner {
            Some(inner) => {
                match inner.poll(now) {
                    PollResult::Ready(v) => {
                        self.finished = true;
                        PollResult::Ready(Ok(v))
                    },
                    PollResult::Pending => PollResult::Pending,
                }
            },
            None => {
                // Unreachable: the inner task is only dropped when the
                // wrapper finishes, and a finished wrapper is not polled.
                proof {
                    assert(false);
                }
                PollResult::Pending
            },
        }
    }
}

/// The abandonment law of the deadline wrapper: a wrapper that timed out
/// holds no inner task any more, so the wrapped task cannot ever be polled
/// again; and a timeout is reported precisely when the wrapper timed out.
pub proof fn lemma_deadline_abandons_inner<T: Task>(
    t: &DeadlineTask<T>,
    v: &Result<T::Output, TimeoutError>,
)
    requires
        t.inv(),
        t.done(),
        t.resolved(v),
    ensures
        *v is Err <==> t.timed_out,
        t.timed_out ==> t.inner is None,
{
}

} // verus!
