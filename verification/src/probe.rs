//! Instrumented tasks for exercising the combinators.
//!
//! These are ordinary tasks whose behaviour is fully scripted, so a test can
//! arrange completion times freely and observe exactly how often a task was
//! polled.

use vstd::prelude::*;
use crate::poll::PollResult;
use crate::pipeline::Processor;
use crate::retry::Operation;
use crate::task::Task;

verus! {

/// A task that becomes ready at a scripted instant and then yields a
/// scripted value.
pub struct ScriptedTask {
    /// The instant from which polls complete the task.
    pub ready_from: u64,
    /// The value the task completes with.
    pub value: u64,
    /// Whether the task has already reported `Ready`.
    pub finished: bool,
}

impl ScriptedTask {
    pub fn new(ready_from: u64, value: u64) -> (t: ScriptedTask)
        ensures
            t.inv(),
            !t.done(),
            t.ready_from == ready_from,
            t.value == value,
    {
        ScriptedTask { ready_from, value, finished: false }
    }
}

impl Task for ScriptedTask {
    type Output = u64;

    open spec fn inv(&self) -> bool {
        true
    }

    open spec fn done(&self) -> bool {
        self.finished
    }

    open spec fn resolved(&self, v: &u64) -> bool {
        self.finished && *v == self.value
    }

    open spec fn ready_at(&self, now: u64) -> bool {
        now >= self.ready_from
    }

    fn poll(&mut self, now: u64) -> (r: PollResult<u64>)
        ensures
            final(self).ready_from == old(self).ready_from,
            final(self).value == old(self).value,
            final(self).finished == (now >= old(self).ready_from),
    {
        if now >= self.ready_from {
            self.finished = true;
            PollResult::Ready(self.value)
        } else {
            PollResult::Pending
        }
    }
}

/// A task that counts how often it is polled: it stays pending for a given
/// number of polls and then completes with the total number of polls it
/// received, so a caller can observe exactly how often it was driven.
pub struct CountingTask {
    /// Polls received so far.
    pub polls: u64,
    /// Total polls after which the task completes.
    pub needed: u64,
    /// Whether the task has already reported `Ready`.
    pub finished: bool,
}

impl CountingTask {
    /// A task that completes on its `needed`-th poll (immediately, when
    /// `needed` is zero or one).
    pub fn new(needed: u64) -> (t: CountingTask)
        ensures
            t.inv(),
            !t.done(),
            t.polls == 0,
            t.needed == needed,
    {
        CountingTask { polls: 0, needed, finished: false }
    }

    /// How often the task has been polled.
    pub fn poll_count(&self) -> (r: u64)
        ensures
            r == self.polls,
    {
        self.polls
    }
}

impl Task for CountingTask {
    type Output = u64;

    open spec fn inv(&self) -> bool {
        self.finished || self.polls < self.needed || self.needed == 0
    }

    open spec fn done(&self) -> bool {
        self.finished
    }

    open spec fn resolved(&self, v: &u64) -> bool {
        self.finished && *v == self.polls
    }

    open spec fn ready_at(&self, now: u64) -> bool {
        self.polls + 1 >= self.needed
    }

    fn poll(&mut self, now: u64) -> (r: PollResult<u64>)
        ensures
            final(self).needed == old(self).needed,
            old(self).polls < u64::MAX ==> final(self).polls == old(self).polls + 1,
            old(self).polls == u64::MAX ==> final(self).polls == old(self).polls,
    {
        if self.polls < u64::MAX {
            self.polls = self.polls + 1;
        }
        if self.polls >= self.needed {
            self.finished = true;
            PollResult::Ready(self.polls)
        } else {
            PollResult::Pending
        }
    }
}

/// A retryable operation whose attempt outcomes are scripted: attempt `n`
/// yields the `n`-th entry of the script (or `fallback` beyond its end),
/// after staying pending for `work` polls.
pub struct ScriptedOp {
    /// The outcome of each scripted attempt, in order.
    pub script: Vec<Result<u32, u32>>,
    /// The outcome of any attempt beyond the script.
    pub fallback: Result<u32, u32>,
    /// Polls an attempt stays pending before completing.
    pub work: u64,
    /// Attempts started so far.
    pub count: Ghost<nat>,
    /// `count`, capped at the script length.
    pub idx: usize,
    /// Whether `count` ran past the script.
    pub over: bool,
    /// Polls left before the in-flight attempt completes.
    pub remaining: u64,
    /// Whether an attempt is in flight.
    pub flying: bool,
}

impl ScriptedOp {
    pub fn new(script: Vec<Result<u32, u32>>, fallback: Result<u32, u32>, work: u64) -> (op:
        ScriptedOp)
        ensures
            op.inv(),
            !op.in_flight(),
            op.started() == 0,
            op.script@ == script@,
            op.fallback == fallback,
            forall|n: nat|
                1 <= n <= script@.len() ==> #[trigger] op.outcome(n) == script@[n - 1],
            forall|n: nat| n > script@.len() ==> #[trigger] op.outcome(n) == fallback,
    {
        ScriptedOp {
            script,
            fallback,
            work,
            count: Ghost(0),
            idx: 0,
            over: false,
            remaining: 0,
            flying: false,
        }
    }

    /// How many attempts have been started, capped at the script length.
    pub fn attempts_started(&self) -> (r: usize)
        ensures
            r == self.idx,
    {
        self.idx
    }
}

impl Operation for ScriptedOp {
    type Ok = u32;

    type Err = u32;

    open spec fn inv(&self) -> bool {
        &&& self.over == (self.count@ > self.script@.len())
        &&& if self.over {
            self.idx == self.script@.len()
        } else {
            self.idx == self.count@
        }
        &&& self.flying ==> self.count@ >= 1
    }

    open spec fn started(&self) -> nat {
        self.count@
    }

    open spec fn in_flight(&self) -> bool {
        self.flying
    }

    open spec fn outcome(&self, n: nat) -> Result<u32, u32> {
        if 1 <= n <= self.script@.len() {
            self.script@[n - 1]
        } else {
            self.fallback
        }
    }

    open spec fn attempt_ready_at(&self, now: u64) -> bool {
        self.remaining == 0
    }

    fn start(&mut self)
        ensures
            final(self).script@ == old(self).script@,
            final(self).fallback == old(self).fallback,
            final(self).work == old(self).work,
    {
        proof {
            self.count@ = self.count@ + 1;
        }
        if self.idx < self.script.len() {
            self.idx = self.idx + 1;
        } else {
            self.over = true;
        }
        self.remaining = self.work;
        self.flying = true;
    }

    fn poll_attempt(&mut self, now: u64) -> (r: PollResult<Result<u32, u32>>)
        ensures
            final(self).script@ == old(self).script@,
            final(self).fallback == old(self).fallback,
            final(self).work == old(self).work,
    {
        if self.remaining > 0 {
            self.remaining = self.remaining - 1;
            PollResult::Pending
        } else {
            self.flying = false;
            if self.over {
                PollResult::Ready(self.fallback)
            } else {
                PollResult::Ready(self.script[self.idx - 1])
            }
        }
    }
}

/// A pipeline processor that records every item whose task it creates, in
/// creation order, and transforms each item by adding a fixed offset
/// (leaving the item unchanged where that would overflow).  Each item's
/// task stays pending for `work` polls before completing.
pub struct RecordingProcessor {
    /// Every item begun so far, in creation order.
    pub log: Vec<u32>,
    /// The offset added to each item.
    pub offset: u32,
    /// Polls an item's task stays pending before completing.
    pub work: u64,
    /// Polls left before the in-flight task completes.
    pub remaining: u64,
    /// Whether an item's task is in flight.
    pub flying: bool,
}

impl RecordingProcessor {
    pub fn new(offset: u32, work: u64) -> (p: RecordingProcessor)
        ensures
            p.inv(),
            !p.in_flight(),
            p.begun().len() == 0,
            p.offset == offset,
            forall|x: u32| #[trigger] p.apply(x) == (if x + offset <= u32::MAX {
                (x + offset) as u32
            } else {
                x
            }),
    {
        RecordingProcessor { log: Vec::new(), offset, work, remaining: 0, flying: false }
    }

    /// The items begun so far, in creation order.
    pub fn begun_log(&self) -> (r: &Vec<u32>)
        ensures
            r@ == self.begun(),
    {
        &self.log
    }
}

impl Processor for RecordingProcessor {
    type Item = u32;

    open spec fn inv(&self) -> bool {
        self.flying ==> self.log@.len() > 0
    }

    open spec fn begun(&self) -> Seq<u32> {
        self.log@
    }

    open spec fn in_flight(&self) -> bool {
        self.flying
    }

    open spec fn apply(&self, item: u32) -> u32 {
        if item + self.offset <= u32::MAX {
            (item + self.offset) as u32
        } else {
            item
        }
    }

    open spec fn item_ready_at(&self, now: u64) -> bool {
        self.remaining == 0
    }

    fn begin(&mut self, item: u32)
        ensures
            final(self).offset == old(self).offset,
            final(self).work == old(self).work,
    {
        self.log.push(item);
        self.remaining = self.work;
        self.flying = true;
    }

    fn poll_item(&mut self, now: u64) -> (r: PollResult<u32>)
        ensures
            final(self).offset == old(self).offset,
            final(self).work == old(self).work,
    {
        if self.remaining > 0 {
            self.remaining = self.remaining - 1;
            PollResult::Pending
        } else {
            self.flying = false;
            let item = self.log[self.log.len() - 1];
            if item <= u32::MAX - self.offset {
                PollResult::Ready(item + self.offset)
            } else {
                PollResult::Ready(item)
            }
        }
    }
}

} // verus!
