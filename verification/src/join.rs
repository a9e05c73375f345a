//! The join combinator: wait concurrently for a whole batch of tasks.
//!
//! A join owns an ordered sequence of child tasks and a same-length sequence
//! of result slots.  Each poll drives every child that has not completed yet
//! exactly once (no child is starved), records a child's value in its
//! original slot the first time the child completes, and reports `Ready`
//! with the full ordered output once every slot is filled.  Output order
//! always matches input order, no matter in which order the children
//! completed; an empty join is ready immediately.

use vstd::prelude::*;
use crate::poll::PollResult;
use crate::task::Task;

verus! {

/// Concurrently awaits `N` child tasks, preserving their order.
pub struct JoinTask<T: Task> {
    /// The child tasks, in input order.
    pub children: Vec<T>,
    /// One result slot per child, filled the first time the child completes.
    pub slots: Vec<Option<T::Output>>,
    /// Whether the join has reported `Ready`.
    pub finished: bool,
    /// Once finished: the outputs that were handed out, in child order.
    pub outputs: Ghost<Seq<T::Output>>,
}

impl<T: Task> JoinTask<T> {
    /// Take ownership of an ordered batch of pending tasks.
    pub fn new(children: Vec<T>) -> (t: JoinTask<T>)
        requires
            forall|i: int|
                0 <= i < children@.len() ==> (#[trigger] children@[i]).inv() && !children@[i].done(),
        ensures
            t.inv(),
            !t.done(),
            t.children@ == children@,
            t.slots@.len() == children@.len(),
    {
        let n = children.len();
        let mut slots: Vec<Option<T::Output>> = Vec::new();
        while slots.len() < n
            invariant
                slots@.len() <= n,
                forall|i: int| 0 <= i < slots@.len() ==> (#[trigger] slots@[i]) is None,
            decreases n - slots.len(),
        {
            slots.push(None);
        }
        JoinTask { children, slots, finished: false, outputs: Ghost(Seq::empty()) }
    }
}

impl<T: Task> Task for JoinTask<T> {
    type Output = Vec<T::Output>;

    open spec fn inv(&self) -> bool {
        &&& self.slots@.len() == self.children@.len()
        &&& forall|i: int| 0 <= i < self.children@.len() ==> (#[trigger] self.children@[i]).inv()
        &&& !self.finished ==> forall|i: int|
            0 <= i < self.children@.len() ==> match #[trigger] self.slots@[i] {
                Some(v) => self.children@[i].done() && self.children@[i].resolved(&v),
                None => !self.children@[i].done(),
            }
        &&& self.finished ==> {
            &&& self.outputs@.len() == self.children@.len()
            &&& forall|i: int|
                0 <= i < self.children@.len() ==> (#[trigger] self.children@[i]).done()
                    && self.children@[i].resolved(&self.outputs@[i])
        }
    }

    open spec fn done(&self) -> bool {
        self.finished
    }

    open spec fn resolved(&self, v: &Vec<T::Output>) -> bool {
        self.finished && v@ == self.outputs@
    }

    open spec fn ready_at(&self, now: u64) -> bool {
        forall|i: int|
            0 <= i < self.children@.len() ==> (#[trigger] self.slots@[i]) is Some
                || self.children@[i].ready_at(now)
    }

    fn poll(&mut self, now: u64) -> (r: PollResult<Vec<T::Output>>)
        ensures
            final(self).children@.len() == old(self).children@.len(),
    {
        let ghost cs0 = self.children@;
        let ghost ss0 = self.slots@;
        let n = self.children.len();
        let mut i: usize = 0;
        let mut all_done: bool = true;
        let ghost mut miss: int = 0;
        while i < n
            invariant
                i <= n,
                !self.finished,
                self.children@.len() == n,
                self.slots@.len() == n,
                cs0.len() == n,
                ss0.len() == n,
                forall|j: int| i <= j < n ==> #[trigger] self.children@[j] == cs0[j],
                forall|j: int| i <= j < n ==> #[trigger] self.slots@[j] == ss0[j],
                forall|j: int|
                    0 <= j < n ==> (#[trigger] self.slots@[j]) is Some
                        == (j < i && (ss0[j] is Some || cs0[j].ready_at(now))
                            || j >= i && ss0[j] is Some),
                forall|j: int| 0 <= j < n ==> (#[trigger] self.children@[j]).inv(),
                forall|j: int|
                    0 <= j < n ==> match #[trigger] self.slots@[j] {
                        Some(v) => self.children@[j].done() && self.children@[j].resolved(&v),
                        None => !self.children@[j].done(),
                    },
                all_done ==> forall|j: int| 0 <= j < i ==> (#[trigger] self.slots@[j]) is Some,
                !all_done ==> 0 <= miss < i && self.slots@[miss] is None,
            decreases n - i,
        {
            if self.slots[i].is_none() {
                let child = &mut self.children[i];
                match child.poll(now) {
                    PollResult::Ready(v) => {
                        let slot = &mut self.slots[i];
                        *slot = Some(v);
                    },
                    PollResult::Pending => {
                        all_done = false;
                        proof {
                            miss = i as int;
                        }
                    },
                }
            }
            i = i + 1;
        }
        if all_done {
            proof {
                assert forall|k: int|
                    0 <= k < n implies ss0[k] is Some || cs0[k].ready_at(now) by {
                    assert(self.slots@[k] is Some);
                }
            }
            let ghost ssf = self.slots@;
            let mut out: Vec<T::Output> = Vec::new();
            let mut j: usize = 0;
            while j < n
                invariant
                    j <= n,
                    !self.finished,
                    self.children@.len() == n,
                    self.slots@.len() == n,
                    ssf.len() == n,
                    out@.len() == j,
                    forall|k: int| j <= k < n ==> #[trigger] self.slots@[k] == ssf[k],
                    forall|k: int| 0 <= k < n ==> (#[trigger] ssf[k]) is Some,
                    forall|k: int| 0 <= k < j ==> #[trigger] out@[k] == ssf[k]->0,
                    forall|k: int| 0 <= k < n ==> (#[trigger] self.children@[k]).inv(),
                    forall|k: int|
                        0 <= k < n ==> (#[trigger] self.children@[k]).done()
                            && self.children@[k].resolved(&ssf[k]->0),
                decreases n - j,
            {
                let taken = self.slots[j].take();
                match taken {
                    Some(x) => {
                        out.push(x);
                    },
                    None => {
                        // Unreachable: every slot is filled once the join
                        // is ready.
                        proof {
                            assert(false);
                        }
                    },
                }
                j = j + 1;
            }
            self.finished = true;
            self.outputs = Ghost(out@);
            PollResult::Ready(out)
        } else {
            PollResult::Pending
        }
    }
}

/// The ordering law of join: a completed join of `n` children yields exactly
/// `n` outputs, and the `i`-th output is a value the `i`-th child resolved
/// to — regardless of the order in which the children became ready.
pub proof fn lemma_join_preserves_order<T: Task>(j: &JoinTask<T>, v: &Vec<T::Output>)
    requires
        j.inv(),
        j.done(),
        j.resolved(v),
    ensures
        v@.len() == j.children@.len(),
        forall|i: int|
            0 <= i < j.children@.len() ==> (#[trigger] j.children@[i]).done()
                && j.children@[i].resolved(&v@[i]),
{
}

} // verus!
