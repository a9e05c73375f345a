//! Retry with exponential backoff.
//!
//! A retryable operation is a factory of attempts: starting it begins a
//! fresh attempt, and each attempt is itself driven by polling until it
//! completes with a `Result`.  The outcome of the `n`-th attempt is fixed by
//! the operation (the specification function [`Operation::outcome`]), which
//! is what lets the retry policy be stated exactly: the first successful
//! attempt ends the retry with its value and no further attempt is started;
//! if every attempt up to `max_attempts` fails, the error of the last
//! attempt (and only that one) is surfaced.  Between a failed attempt `n`
//! and attempt `n + 1` the retry waits behind a child timer whose duration
//! is `base_delay * 2^(n-1)` ticks.

use vstd::prelude::*;
use vstd::arithmetic::mul::lemma_mul_inequality;
use vstd::arithmetic::mul::lemma_mul_is_commutative;
use crate::clock::cap_add_spec;
use crate::poll::PollResult;
use crate::task::Task;
use crate::timer::TimerTask;

verus! {

/// `2^n`.
pub open spec fn pow2(n: nat) -> nat
    decreases n,
{
    if n == 0 {
        1
    } else {
        2 * pow2((n - 1) as nat)
    }
}

/// `pow2` is monotonic.
pub proof fn lemma_pow2_le(n: nat, m: nat)
    requires
        n <= m,
    ensures
        pow2(n) <= pow2(m),
    decreases m,
{
    if n < m {
        lemma_pow2_le(n, (m - 1) as nat);
    }
}

/// Growing `attempt` never shrinks the backoff delay.
pub proof fn lemma_backoff_delay_le(base: u64, n: nat, m: nat)
    requires
        1 <= n <= m,
    ensures
        backoff_delay_spec(base, n) <= backoff_delay_spec(base, m),
{
    lemma_pow2_le((n - 1) as nat, (m - 1) as nat);
    lemma_mul_inequality(pow2((n - 1) as nat) as int, pow2((m - 1) as nat) as int, base as int);
    lemma_mul_is_commutative(base as int, pow2((n - 1) as nat) as int);
    lemma_mul_is_commutative(base as int, pow2((m - 1) as nat) as int);
}

/// The backoff delay inserted after the `attempt`-th failure: it doubles
/// with every further failure, starting from `base`.
pub open spec fn backoff_delay_spec(base: u64, attempt: nat) -> int
    recommends
        attempt >= 1,
{
    base * pow2((attempt - 1) as nat)
}

/// Compute the backoff delay before attempt `attempt + 1`:
/// `base * 2^(attempt - 1)` ticks.
pub fn backoff_delay(base: u64, attempt: u32) -> (d: u64)
    requires
        attempt >= 1,
        backoff_delay_spec(base, attempt as nat) <= u64::MAX,
    ensures
        d == backoff_delay_spec(base, attempt as nat),
{
    let mut d: u64 = base;
    let mut i: u32 = 0;
    proof {
        assert(pow2(0) == 1);
    }
    while i < attempt - 1
        invariant
            i <= attempt - 1,
            d == base * pow2(i as nat),
            backoff_delay_spec(base, attempt as nat) <= u64::MAX,
        decreases attempt - 1 - i,
    {
        proof {
            assert(pow2((i + 1) as nat) == 2 * pow2(i as nat));
            assert(base * pow2((i + 1) as nat) == 2 * (base * pow2(i as nat)))
                by (nonlinear_arith)
                requires
                    pow2((i + 1) as nat) == 2 * pow2(i as nat),
            ;
            lemma_backoff_delay_le(base, (i + 2) as nat, attempt as nat);
            assert(backoff_delay_spec(base, (i + 2) as nat) == base * pow2((i + 1) as nat));
        }
        d = d * 2;
        i = i + 1;
    }
    d
}

/// A retryable operation: a factory that produces one pollable attempt at a
/// time, at most one in flight.  The outcome of each attempt is a function
/// of the operation and the attempt number alone.
pub trait Operation: Sized {
    /// The success value of an attempt.
    type Ok;

    /// The error value of an attempt.
    type Err;

    /// Well-formedness of the operation's state.
    spec fn inv(&self) -> bool;

    /// How many attempts have been started so far.
    spec fn started(&self) -> nat;

    /// Whether an attempt is currently in flight.
    spec fn in_flight(&self) -> bool;

    /// The predetermined outcome of the `n`-th attempt (counted from 1).
    spec fn outcome(&self, n: nat) -> Result<Self::Ok, Self::Err>;

    /// Whether a poll of the in-flight attempt at instant `now` completes it.
    spec fn attempt_ready_at(&self, now: u64) -> bool;

    /// Begin a fresh attempt.
    fn start(&mut self)
        requires
            old(self).inv(),
            !old(self).in_flight(),
        ensures
            final(self).inv(),
            final(self).in_flight(),
            final(self).started() == old(self).started() + 1,
            forall|n: nat| #[trigger] final(self).outcome(n) == old(self).outcome(n),
    ;

    /// Drive the in-flight attempt once at instant `now`.
    fn poll_attempt(&mut self, now: u64) -> (r: PollResult<Result<Self::Ok, Self::Err>>)
        requires
            old(self).inv(),
            old(self).in_flight(),
        ensures
            final(self).inv(),
            final(self).started() == old(self).started(),
            forall|n: nat| #[trigger] final(self).outcome(n) == old(self).outcome(n),
            match r {
                PollResult::Ready(v) => !final(self).in_flight()
                    && v == old(self).outcome(old(self).started())
                    && old(self).attempt_ready_at(now),
                PollResult::Pending => final(self).in_flight()
                    && !old(self).attempt_ready_at(now),
            },
    ;
}

/// All attempts before the `k`-th failed.
pub open spec fn failed_below<Op: Operation>(op: &Op, k: nat) -> bool {
    forall|i: nat| 1 <= i < k ==> (#[trigger] op.outcome(i)) is Err
}

/// The phase a retry is in.
pub enum RetryPhase {
    /// An attempt is in flight.
    Running,
    /// The last attempt failed; waiting behind a backoff timer before the
    /// next one.  `entered` records the instant at which the wait began.
    Backoff { timer: TimerTask, entered: Ghost<u64> },
    /// The retry has reported `Ready`.
    Done,
}

/// Repeats a fallible operation until it succeeds or `max_attempts`
/// attempts have failed, with exponential backoff between attempts.
pub struct RetryTask<Op: Operation> {
    /// The retryable operation; it owns the in-flight attempt.
    pub op: Op,
    /// Attempts started so far; strictly increases, never beyond
    /// `max_attempts`.
    pub attempts: u32,
    /// The attempt budget (at least 1).
    pub max_attempts: u32,
    /// The backoff delay after the first failure.
    pub base_delay: u64,
    /// Where the retry stands.
    pub phase: RetryPhase,
}

impl<Op: Operation> RetryTask<Op> {
    /// Take ownership of `op` and immediately start its first attempt.
    ///
    /// The bound on `base_delay` makes every backoff delay representable:
    /// the longest one is `base_delay * 2^(max_attempts - 2)`.
    pub fn new(op: Op, max_attempts: u32, base_delay: u64) -> (t: RetryTask<Op>)
        requires
            op.inv(),
            !op.in_flight(),
            op.started() == 0,
            max_attempts >= 1,
            backoff_delay_spec(base_delay, max_attempts as nat) <= u64::MAX,
        ensures
            t.inv(),
            !t.done(),
            t.max_attempts == max_attempts,
            t.base_delay == base_delay,
            t.attempts == 1,
            forall|n: nat| #[trigger] t.op.outcome(n) == op.outcome(n),
    {
        let mut op = op;
        op.start();
        RetryTask { op, attempts: 1, max_attempts, base_delay, phase: RetryPhase::Running }
    }
}

impl<Op: Operation> Task for RetryTask<Op> {
    type Output = Result<Op::Ok, Op::Err>;

    open spec fn inv(&self) -> bool {
        &&& self.op.inv()
        &&& 1 <= self.attempts <= self.max_attempts
        &&& self.attempts == self.op.started()
        &&& backoff_delay_spec(self.base_delay, self.max_attempts as nat) <= u64::MAX
        &&& failed_below(&self.op, self.attempts as nat)
        &&& match self.phase {
            RetryPhase::Running => self.op.in_flight(),
            RetryPhase::Backoff { timer, entered } => {
                &&& !self.op.in_flight()
                &&& self.op.outcome(self.attempts as nat) is Err
                &&& self.attempts < self.max_attempts
                &&& !timer.done()
                &&& timer.deadline == cap_add_spec(
                    entered@,
                    backoff_delay_spec(self.base_delay, self.attempts as nat) as u64,
                )
            },
            RetryPhase::Done => self.op.outcome(self.attempts as nat) is Ok
                || self.attempts == self.max_attempts,
        }
    }

    open spec fn done(&self) -> bool {
        self.phase is Done
    }

    open spec fn resolved(&self, v: &Result<Op::Ok, Op::Err>) -> bool {
        self.phase is Done && *v == self.op.outcome(self.attempts as nat)
    }

    open spec fn ready_at(&self, now: u64) -> bool {
        &&& self.phase is Running
        &&& self.op.attempt_ready_at(now)
        &&& (self.op.outcome(self.op.started()) is Ok || self.attempts == self.max_attempts)
    }

    fn poll(&mut self, now: u64) -> (r: PollResult<Result<Op::Ok, Op::Err>>)
        ensures
            final(self).max_attempts == old(self).max_attempts,
            final(self).base_delay == old(self).base_delay,
            final(self).attempts >= old(self).attempts,
            forall|n: nat| #[trigger] final(self).op.outcome(n) == old(self).op.outcome(n),
    {
        let mut start_next = false;
        match &mut self.phase {
            RetryPhase::Running => {},
            RetryPhase::Backoff { timer, .. } => {
                match timer.poll_elapsed(now) {
                    PollResult::Ready(_) => {
                        start_next = true;
                    },
                    PollResult::Pending => {
                        return PollResult::Pending;
                    },
                }
            },
            RetryPhase::Done => {
                // Unreachable: a finished retry is not polled.
                proof {
                    assert(false);
                }
            },
        }
        if start_next {
            self.op.start();
            self.attempts = self.attempts + 1;
            self.phase = RetryPhase::Running;
            return PollResult::Pending;
        }
        match self.op.poll_attempt(now) {
            PollResult::Pending => PollResult::Pending,
            PollResult::Ready(res) => match res {
                Ok(v) => {
                    self.phase = RetryPhase::Done;
                    PollResult::Ready(Ok(v))
                },
                Err(e) => {
                    if self.attempts >= self.max_attempts {
                        self.phase = RetryPhase::Done;
                        PollResult::Ready(Err(e))
                    } else {
                        proof {
                            lemma_backoff_delay_le(
                                self.base_delay,
                                self.attempts as nat,
                                self.max_attempts as nat,
                            );
                        }
                        let d = backoff_delay(self.base_delay, self.attempts);
                        self.phase = RetryPhase::Backoff {
                            timer: TimerTask::new(now, d),
                            entered: Ghost(now),
                        };
                        PollResult::Pending
                    }
                },
            },
        }
    }
}

/// The exhaustion law of retry: when every attempt up to the budget fails,
/// the retry starts the operation exactly `max_attempts` times and surfaces
/// the error of the last attempt, never an earlier one.
pub proof fn lemma_retry_exhausts_budget<Op: Operation>(
    t: &RetryTask<Op>,
    v: &Result<Op::Ok, Op::Err>,
)
    requires
        t.inv(),
        t.done(),
        t.resolved(v),
        forall|j: nat| 1 <= j <= t.max_attempts ==> (#[trigger] t.op.outcome(j)) is Err,
    ensures
        t.op.started() == t.max_attempts,
        *v == t.op.outcome(t.max_attempts as nat),
        *v is Err,
{
}

/// The early-exit law of retry: when attempt `j` is the first to succeed
/// and lies within the budget, the retry starts the operation exactly `j`
/// times — attempt `j + 1` never begins — and yields that success.
pub proof fn lemma_retry_stops_at_success<Op: Operation>(
    t: &RetryTask<Op>,
    v: &Result<Op::Ok, Op::Err>,
    j: nat,
)
    requires
        t.inv(),
        t.done(),
        t.resolved(v),
        1 <= j <= t.max_attempts,
        t.op.outcome(j) is Ok,
        forall|i: nat| 1 <= i < j ==> (#[trigger] t.op.outcome(i)) is Err,
    ensures
        t.op.started() == j,
        *v == t.op.outcome(j),
        *v is Ok,
{
    assert(failed_below(&t.op, t.attempts as nat));
    if t.attempts < j {
        assert(t.op.outcome(t.attempts as nat) is Err);
    } else if t.attempts > j {
        assert(t.op.outcome(j) is Err);
    }
}

} // verus!
