//! The sequential pipeline: one task per item, strictly in order.
//!
//! A pipeline owns an ordered sequence of items and a per-item processor.
//! Items are processed strictly one after the other: the task for an item
//! is only created once the previous item's task has completed and its
//! result has been recorded.  The output is the ordered sequence of
//! transformed items, one per input, in input order.  This is deliberately
//! sequential — it models a single-consumer stream, not concurrent fan-out.

use vstd::prelude::*;
use crate::poll::PollResult;
use crate::task::Task;

verus! {

/// A per-item task factory: beginning an item creates its task, and the
/// task is then driven by polling until it yields the transformed item.
/// The transformation is a function of the processor and the item alone.
pub trait Processor: Sized {
    /// The type of the items flowing through the pipeline.
    type Item;

    /// Well-formedness of the processor's state.
    spec fn inv(&self) -> bool;

    /// The items whose tasks have been created, in creation order.
    spec fn begun(&self) -> Seq<Self::Item>;

    /// Whether an item's task is currently in flight.
    spec fn in_flight(&self) -> bool;

    /// The transformation the pipeline applies to each item.
    spec fn apply(&self, item: Self::Item) -> Self::Item;

    /// Whether a poll of the in-flight task at instant `now` completes it.
    spec fn item_ready_at(&self, now: u64) -> bool;

    /// Create the task for `item`.
    fn begin(&mut self, item: Self::Item)
        requires
            old(self).inv(),
            !old(self).in_flight(),
        ensures
            final(self).inv(),
            final(self).in_flight(),
            final(self).begun() == old(self).begun().push(item),
            forall|x: Self::Item| #[trigger] final(self).apply(x) == old(self).apply(x),
    ;

    /// Drive the in-flight item's task once at instant `now`.
    fn poll_item(&mut self, now: u64) -> (r: PollResult<Self::Item>)
        requires
            old(self).inv(),
            old(self).in_flight(),
        ensures
            final(self).inv(),
            final(self).begun() == old(self).begun(),
            forall|x: Self::Item| #[trigger] final(self).apply(x) == old(self).apply(x),
            match r {
                PollResult::Ready(v) => !final(self).in_flight()
                    && old(self).begun().len() > 0
                    && v == old(self).apply(old(self).begun().last())
                    && old(self).item_ready_at(now),
                PollResult::Pending => final(self).in_flight()
                    && !old(self).item_ready_at(now),
            },
    ;
}

/// Processes an ordered sequence of items strictly sequentially.
pub struct PipelineTask<P: Processor> {
    /// The per-item task factory.
    pub proc: P,
    /// The items not yet begun, in order.
    pub items: Vec<P::Item>,
    /// The transformed items recorded so far, in input order.
    pub results: Vec<P::Item>,
    /// Whether an item's task is in flight (mirrors the processor).
    pub flying: bool,
    /// Whether the pipeline has reported `Ready`.
    pub finished: bool,
    /// All items, in input order, as handed to the constructor.
    pub all_items: Ghost<Seq<P::Item>>,
}

impl<P: Processor> PipelineTask<P> {
    /// Take ownership of the items and the processor.  No task is created
    /// yet; the first item's task is created on the first poll.
    pub fn new(items: Vec<P::Item>, proc: P) -> (t: PipelineTask<P>)
        requires
            proc.inv(),
            !proc.in_flight(),
            proc.begun().len() == 0,
        ensures
            t.inv(),
            !t.done(),
            t.all_items@ == items@,
            t.proc == proc,
    {
        let t = PipelineTask {
            proc,
            items,
            results: Vec::new(),
            flying: false,
            finished: false,
            all_items: Ghost(items@),
        };
        proof {
            assert(t.items@ =~= t.all_items@.skip(0));
            assert(t.proc.begun() =~= t.all_items@.take(0));
        }
        t
    }
}

impl<P: Processor> Task for PipelineTask<P> {
    type Output = Vec<P::Item>;

    open spec fn inv(&self) -> bool {
        &&& self.proc.inv()
        &&& self.flying == self.proc.in_flight()
        &&& !self.finished ==> {
            &&& self.results@.len() + if self.flying {
                1int
            } else {
                0int
            } + self.items@.len() == self.all_items@.len()
            &&& self.items@ == self.all_items@.skip(
                self.results@.len() + if self.flying {
                    1int
                } else {
                    0int
                },
            )
            &&& self.proc.begun() == self.all_items@.take(
                self.results@.len() + if self.flying {
                    1int
                } else {
                    0int
                },
            )
            &&& forall|k: int|
                0 <= k < self.results@.len() ==> #[trigger] self.results@[k] == self.proc.apply(
                    self.all_items@[k],
                )
        }
        &&& self.finished ==> {
            &&& !self.flying
            &&& self.items@.len() == 0
            &&& self.proc.begun() == self.all_items@
        }
    }

    open spec fn done(&self) -> bool {
        self.finished
    }

    open spec fn resolved(&self, v: &Vec<P::Item>) -> bool {
        &&& self.finished
        &&& v@.len() == self.all_items@.len()
        &&& forall|k: int|
            0 <= k < v@.len() ==> #[trigger] v@[k] == self.proc.apply(self.all_items@[k])
    }

    open spec fn ready_at(&self, now: u64) -> bool {
        !self.flying && self.items@.len() == 0
    }

    fn poll(&mut self, now: u64) -> (r: PollResult<Vec<P::Item>>)
        ensures
            final(self).all_items@ == old(self).all_items@,
            forall|x: P::Item| #[trigger] final(self).proc.apply(x) == old(self).proc.apply(x),
    {
        if self.flying {
            match self.proc.poll_item(now) {
                PollResult::Pending => PollResult::Pending,
                PollResult::Ready(v) => {
                    self.flying = false;
                    proof {
                        let cnt = self.results@.len() as int;
                        assert(self.proc.begun().len() == cnt + 1);
                        assert(self.proc.begun().last() == self.all_items@.take(cnt + 1)[cnt]);
                        assert(self.proc.begun().last() == self.all_items@[cnt]);
                    }
                    self.results.push(v);
                    PollResult::Pending
                },
            }
        } else {
            if self.items.len() == 0 {
                let mut out: Vec<P::Item> = Vec::new();
                core::mem::swap(&mut out, &mut self.results);
                self.finished = true;
                proof {
                    assert(self.proc.begun() =~= self.all_items@);
                }
                PollResult::Ready(out)
            } else {
                let item = self.items.remove(0);
                proof {
                    let cnt = self.results@.len() as int;
                    assert(item == self.all_items@.skip(cnt)[0]);
                    assert(item == self.all_items@[cnt]);
                }
                self.proc.begin(item);
                self.flying = true;
                proof {
                    let cnt = self.results@.len() as int;
                    assert(self.items@ =~= self.all_items@.skip(cnt + 1));
                    assert(self.proc.begun() =~= self.all_items@.take(cnt + 1));
                }
                PollResult::Pending
            }
        }
    }
}

/// The sequencing law of the pipeline: tasks are created for a prefix of
/// the items, in input order, and at most one item beyond those whose
/// results are already recorded — so an item's task is created only
/// strictly after the previous item's task completed.
pub proof fn lemma_pipeline_sequential<P: Processor>(t: &PipelineTask<P>)
    requires
        t.inv(),
        !t.done(),
    ensures
        t.proc.begun() == t.all_items@.take(t.proc.begun().len() as int),
        t.proc.begun().len() <= t.results@.len() + 1,
        t.proc.begun().len() == t.results@.len() + if t.proc.in_flight() {
            1int
        } else {
            0int
        },
        forall|k: int|
            0 <= k < t.results@.len() ==> #[trigger] t.results@[k] == t.proc.apply(
                t.all_items@[k],
            ),
{
    assert(t.proc.begun() =~= t.all_items@.take(t.proc.begun().len() as int));
}

} // verus!
