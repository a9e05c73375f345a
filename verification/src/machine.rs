//! The explicit state-machine task.
//!
//! A task's internal representation is a tagged variant, and driving it is
//! a transition function over that variant.  This machine starts in
//! `Start`, enters processing with a count of one, increments the count on
//! each further round, and finishes once the count has reached
//! [`PROCESS_ROUNDS`]; the final value is the number of rounds processed.
//! `Finished` is terminal: stepping a finished machine changes nothing.
//! Between transitions the task waits behind a timer: [`START_WAIT`] ticks
//! before processing begins, [`PROCESS_WAIT`] ticks between rounds.

use vstd::prelude::*;
use crate::clock::{cap_add, cap_add_spec};
use crate::poll::PollResult;
use crate::task::Task;

verus! {

/// Ticks the machine waits before its first transition.
pub const START_WAIT: u64 = 100;

/// Ticks the machine waits between processing rounds.
pub const PROCESS_WAIT: u64 = 50;

/// Processing rounds before the machine finishes.
pub const PROCESS_ROUNDS: u32 = 3;

/// The states of the machine.
#[derive(PartialEq, Eq, Structural, Clone, Copy, Debug)]
pub enum MachineState {
    /// Fresh; no work done yet.
    Start,
    /// In round `count` of processing.
    Processing { count: u32 },
    /// Terminal; processed `result` rounds.
    Finished { result: u32 },
}

/// The transition function of the machine: `Start` begins processing with
/// a count of one; `Processing { count }` moves to the next round, or to
/// `Finished { count }` once `count` has reached [`PROCESS_ROUNDS`];
/// `Finished` is a fixed point.
pub open spec fn machine_step(s: MachineState) -> MachineState {
    match s {
        MachineState::Start => MachineState::Processing { count: 1 },
        MachineState::Processing { count } => if count >= PROCESS_ROUNDS {
            MachineState::Finished { result: count }
        } else {
            MachineState::Processing { count: (count + 1) as u32 }
        },
        MachineState::Finished { result } => MachineState::Finished { result },
    }
}

/// Apply the transition function once.  Stepping a finished machine is an
/// idempotent no-op.
pub fn step_machine(s: MachineState) -> (r: MachineState)
    ensures
        r == machine_step(s),
{
    match s {
        MachineState::Start => MachineState::Processing { count: 1 },
        MachineState::Processing { count } => {
            if count >= PROCESS_ROUNDS {
                MachineState::Finished { result: count }
            } else {
                MachineState::Processing { count: count + 1 }
            }
        },
        MachineState::Finished { result } => MachineState::Finished { result },
    }
}

/// A task that drives the machine: each poll waits behind the current
/// timer, applies one transition when the wait has elapsed, and completes
/// with the round count once the machine reaches `Finished`.
pub struct StateMachineTask {
    /// The machine's current state.
    pub state: MachineState,
    /// The instant at which the next transition may happen.
    pub next_at: u64,
}

impl StateMachineTask {
    /// A fresh machine at instant `now`, in `Start`, with its first
    /// transition [`START_WAIT`] ticks away.
    pub fn new(now: u64) -> (t: StateMachineTask)
        ensures
            t.inv(),
            !t.done(),
            t.state == MachineState::Start,
            t.next_at == cap_add_spec(now, START_WAIT),
    {
        StateMachineTask { state: MachineState::Start, next_at: cap_add(now, START_WAIT) }
    }
}

impl Task for StateMachineTask {
    type Output = u32;

    open spec fn inv(&self) -> bool {
        true
    }

    open spec fn done(&self) -> bool {
        self.state is Finished
    }

    open spec fn resolved(&self, v: &u32) -> bool {
        self.state matches MachineState::Finished { result } && *v == result
    }

    open spec fn ready_at(&self, now: u64) -> bool {
        now >= self.next_at && machine_step(self.state) is Finished
    }

    fn poll(&mut self, now: u64) -> (r: PollResult<u32>)
        ensures
            now < old(self).next_at ==> *final(self) == *old(self),
            now >= old(self).next_at ==> final(self).state == machine_step(old(self).state)
                && final(self).next_at == cap_add_spec(now, PROCESS_WAIT),
    {
        if now < self.next_at {
            return PollResult::Pending;
        }
        self.state = step_machine(self.state);
        self.next_at = cap_add(now, PROCESS_WAIT);
        match self.state {
            MachineState::Finished { result } => PollResult::Ready(result),
            _ => PollResult::Pending,
        }
    }
}

/// The trajectory law of the machine: from `Start`, successive transitions
/// pass through processing rounds one, two and three and then reach
/// `Finished` with a result of three; one more step shows that `Finished`
/// is an idempotent fixed point.
pub proof fn lemma_machine_trajectory()
    ensures
        machine_step(MachineState::Start) == (MachineState::Processing { count: 1 }),
        machine_step(MachineState::Processing { count: 1 }) == (MachineState::Processing {
            count: 2,
        }),
        machine_step(MachineState::Processing { count: 2 }) == (MachineState::Processing {
            count: 3,
        }),
        machine_step(MachineState::Processing { count: 3 }) == (MachineState::Finished {
            result: 3,
        }),
        forall|r: u32| #[trigger] machine_step(MachineState::Finished { result: r })
            == (MachineState::Finished { result: r }),
{
}

} // verus!
