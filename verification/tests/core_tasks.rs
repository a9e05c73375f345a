use minitask::clock::Clock;
use minitask::deadline::DeadlineTask;
use minitask::join::JoinTask;
use minitask::machine::{step_machine, MachineState, StateMachineTask};
use minitask::poll::PollResult;
use minitask::probe::{CountingTask, ScriptedTask};
use minitask::task::{run, Task};
use minitask::timer::TimerTask;

#[test]
fn test_timer_fires_at_deadline() {
    let mut t = TimerTask::new(0, 5);
    let mut clock = Clock::new(0);
    let r = run(&mut t, &mut clock, 100);
    assert_eq!(r, Some(()));
    assert_eq!(clock.now(), 5);
}

#[test]
fn test_timer_zero_duration_is_ready_immediately() {
    let mut t = TimerTask::new(7, 0);
    let mut clock = Clock::new(7);
    let r = run(&mut t, &mut clock, 100);
    assert_eq!(r, Some(()));
    assert_eq!(clock.now(), 7);
}

#[test]
fn test_run_budget_exhausted() {
    let mut t = TimerTask::new(0, 10);
    let mut clock = Clock::new(0);
    let r = run(&mut t, &mut clock, 3);
    assert_eq!(r, None);
    assert_eq!(clock.now(), 3);
}

#[test]
fn test_join_preserves_order() {
    // The children complete in the order b, c, a, but the output keeps the
    // input order a, b, c.
    let a = ScriptedTask::new(30, 1);
    let b = ScriptedTask::new(10, 2);
    let c = ScriptedTask::new(20, 3);
    let mut j = JoinTask::new(vec![a, b, c]);
    let mut clock = Clock::new(0);
    let r = run(&mut j, &mut clock, 1000);
    assert_eq!(r, Some(vec![1, 2, 3]));
    assert_eq!(clock.now(), 30);
}

#[test]
fn test_join_empty_is_ready_immediately() {
    let children: Vec<ScriptedTask> = Vec::new();
    let mut j = JoinTask::new(children);
    let mut clock = Clock::new(0);
    let r = run(&mut j, &mut clock, 1000);
    assert_eq!(r, Some(Vec::new()));
    assert_eq!(clock.now(), 0);
}

#[test]
fn test_join_three_timers_takes_the_maximum() {
    // Three timers of 100, 200 and 300 ticks: the join takes about the
    // maximum (300), not the sum (600), and yields the units in order.
    let start = 0;
    let t1 = TimerTask::new(start, 100);
    let t2 = TimerTask::new(start, 200);
    let t3 = TimerTask::new(start, 300);
    let mut j = JoinTask::new(vec![t1, t2, t3]);
    let mut clock = Clock::new(start);
    let r = run(&mut j, &mut clock, 10_000);
    assert_eq!(r, Some(vec![(), (), ()]));
    let total = clock.now() - start;
    assert_eq!(total, 300);
    assert!(total < 600);
}

#[test]
fn test_deadline_reports_timeout_and_abandons_inner() {
    // The inner task would only complete after 100 polls; the wrapper cuts
    // it off once the clock passes the cut-off instant.
    let inner = CountingTask::new(100);
    let mut d = DeadlineTask::new(inner, 0, 5);
    let mut clock = Clock::new(0);
    let r = run(&mut d, &mut clock, 1000);
    assert!(matches!(r, Some(Err(_))));
    assert_eq!(clock.now(), 6);
    assert!(d.inner.is_none());
}

#[test]
fn test_deadline_check_precedes_inner_poll() {
    // The inner task would complete in the very poll cycle that crosses the
    // deadline; the wrapper still reports a timeout.
    let inner = CountingTask::new(7);
    let mut d = DeadlineTask::new(inner, 0, 5);
    let mut clock = Clock::new(0);
    let r = run(&mut d, &mut clock, 1000);
    assert!(matches!(r, Some(Err(_))));
    // The inner task was polled while the deadline had not passed (instants
    // 0 through 5) and never again after the timeout fired.
    assert!(d.inner.is_none());
}

#[test]
fn test_deadline_inner_poll_count_stops_after_timeout() {
    let inner = CountingTask::new(1000);
    let mut d = DeadlineTask::new(inner, 0, 5);
    let mut clock = Clock::new(0);
    // While the deadline has not passed, every poll reaches the inner task.
    for _ in 0..3 {
        assert!(matches!(d.poll(clock.now()), PollResult::Pending));
        clock.tick();
    }
    assert_eq!(d.inner.as_ref().map(|t| t.poll_count()), Some(3));
    // Jump past the cut-off: the wrapper times out and the inner task is
    // gone, so its poll count can never increase again.
    clock.advance(10);
    assert!(matches!(d.poll(clock.now()), PollResult::Ready(Err(_))));
    assert!(d.inner.is_none());
}

#[test]
fn test_deadline_forwards_inner_completion() {
    let inner = CountingTask::new(3);
    let mut d = DeadlineTask::new(inner, 0, 100);
    let mut clock = Clock::new(0);
    let r = run(&mut d, &mut clock, 1000);
    assert_eq!(r, Some(Ok(3)));
    assert_eq!(clock.now(), 2);
    // The completed inner task is kept; it was polled exactly three times.
    assert_eq!(d.inner.as_ref().map(|t| t.poll_count()), Some(3));
}

#[test]
fn test_machine_trajectory() {
    // Start -> Processing{1} -> Processing{2} -> Processing{3} -> Finished.
    let mut m = StateMachineTask::new(0);
    assert!(matches!(m.state, MachineState::Start));
    assert!(matches!(m.poll(50), PollResult::Pending));
    assert!(matches!(m.state, MachineState::Start));
    assert!(matches!(m.poll(100), PollResult::Pending));
    assert!(matches!(m.state, MachineState::Processing { count: 1 }));
    assert!(matches!(m.poll(150), PollResult::Pending));
    assert!(matches!(m.state, MachineState::Processing { count: 2 }));
    assert!(matches!(m.poll(200), PollResult::Pending));
    assert!(matches!(m.state, MachineState::Processing { count: 3 }));
    match m.poll(250) {
        PollResult::Ready(result) => assert_eq!(result, 3),
        PollResult::Pending => panic!("machine should have finished"),
    }
    assert!(matches!(m.state, MachineState::Finished { result: 3 }));
}

#[test]
fn test_machine_finished_is_idempotent() {
    let finished = MachineState::Finished { result: 3 };
    assert_eq!(step_machine(finished), finished);
    assert_eq!(step_machine(step_machine(finished)), finished);
}

#[test]
fn test_machine_via_driver() {
    let mut m = StateMachineTask::new(0);
    let mut clock = Clock::new(0);
    let r = run(&mut m, &mut clock, 10_000);
    assert_eq!(r, Some(3));
    assert_eq!(clock.now(), 250);
}
