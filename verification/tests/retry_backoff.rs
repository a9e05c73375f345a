use minitask::clock::Clock;
use minitask::probe::ScriptedOp;
use minitask::retry::{backoff_delay, RetryTask};
use minitask::task::run;

#[test]
fn test_backoff_delay_doubles() {
    // The delay before attempt n + 1 is base * 2^(n-1).
    assert_eq!(backoff_delay(100, 1), 100);
    assert_eq!(backoff_delay(100, 2), 200);
    assert_eq!(backoff_delay(100, 3), 400);
    assert_eq!(backoff_delay(100, 4), 800);
    assert_eq!(backoff_delay(7, 1), 7);
    assert_eq!(backoff_delay(0, 3), 0);
}

#[test]
fn test_retry_exhausts_budget_and_surfaces_last_error() {
    // Every attempt fails: the operation runs exactly three times and the
    // error of the third attempt is surfaced, not an earlier one.
    let op = ScriptedOp::new(vec![Err(1), Err(2), Err(3)], Err(9), 0);
    let mut t = RetryTask::new(op, 3, 100);
    let mut clock = Clock::new(0);
    let r = run(&mut t, &mut clock, 100_000);
    assert_eq!(r, Some(Err(3)));
    assert_eq!(t.op.attempts_started(), 3);
    assert_eq!(t.attempts, 3);
}

#[test]
fn test_retry_stops_at_first_success() {
    // The second attempt succeeds: the operation runs exactly twice and the
    // third attempt never starts.
    let op = ScriptedOp::new(vec![Err(1), Ok(42), Err(3)], Err(9), 0);
    let mut t = RetryTask::new(op, 3, 100);
    let mut clock = Clock::new(0);
    let r = run(&mut t, &mut clock, 100_000);
    assert_eq!(r, Some(Ok(42)));
    assert_eq!(t.op.attempts_started(), 2);
    assert_eq!(t.attempts, 2);
}

#[test]
fn test_retry_immediate_success_needs_no_backoff() {
    let op = ScriptedOp::new(vec![Ok(7)], Err(9), 0);
    let mut t = RetryTask::new(op, 3, 100);
    let mut clock = Clock::new(0);
    let r = run(&mut t, &mut clock, 100_000);
    assert_eq!(r, Some(Ok(7)));
    assert_eq!(t.op.attempts_started(), 1);
    assert_eq!(clock.now(), 0);
}

#[test]
fn test_retry_backoff_timing_with_injected_clock() {
    // Three failing attempts with a base delay of 10 ticks: the waits are
    // 10 then 20 ticks, plus one bookkeeping tick after each of the two
    // backoff expiries, so the retry concludes at tick 32.
    let op = ScriptedOp::new(vec![Err(1), Err(2), Err(3)], Err(9), 0);
    let mut t = RetryTask::new(op, 3, 10);
    let mut clock = Clock::new(0);
    let r = run(&mut t, &mut clock, 100_000);
    assert_eq!(r, Some(Err(3)));
    assert_eq!(clock.now(), 32);
}

#[test]
fn test_retry_single_attempt_budget() {
    let op = ScriptedOp::new(vec![Err(5)], Err(9), 0);
    let mut t = RetryTask::new(op, 1, 100);
    let mut clock = Clock::new(0);
    let r = run(&mut t, &mut clock, 100_000);
    assert_eq!(r, Some(Err(5)));
    assert_eq!(t.op.attempts_started(), 1);
    assert_eq!(clock.now(), 0);
}
