use minitask::clock::Clock;
use minitask::pipeline::PipelineTask;
use minitask::poll::PollResult;
use minitask::probe::RecordingProcessor;
use minitask::stream::NumberStream;
use minitask::task::{run, Task};

#[test]
fn test_pipeline_transforms_in_order() {
    let proc = RecordingProcessor::new(1, 0);
    let mut p = PipelineTask::new(vec![5, 6, 7], proc);
    let mut clock = Clock::new(0);
    let r = run(&mut p, &mut clock, 1000);
    assert_eq!(r, Some(vec![6, 7, 8]));
    assert_eq!(p.proc.begun_log().as_slice(), &[5, 6, 7]);
}

#[test]
fn test_pipeline_creates_next_task_only_after_previous_completes() {
    // Each item's task needs two extra polls; the second item's task must
    // not be created until the first item's result is recorded.
    let proc = RecordingProcessor::new(0, 2);
    let mut p = PipelineTask::new(vec![10, 20], proc);
    assert!(matches!(p.poll(0), PollResult::Pending)); // task for 10 created
    assert_eq!(p.proc.begun_log().as_slice(), &[10]);
    assert!(matches!(p.poll(1), PollResult::Pending)); // 10 still working
    assert_eq!(p.proc.begun_log().as_slice(), &[10]);
    assert!(matches!(p.poll(2), PollResult::Pending)); // 10 still working
    assert_eq!(p.proc.begun_log().as_slice(), &[10]);
    assert!(matches!(p.poll(3), PollResult::Pending)); // 10 completed
    assert_eq!(p.proc.begun_log().as_slice(), &[10]);
    assert!(matches!(p.poll(4), PollResult::Pending)); // task for 20 created
    assert_eq!(p.proc.begun_log().as_slice(), &[10, 20]);
}

#[test]
fn test_pipeline_empty_is_ready_immediately() {
    let proc = RecordingProcessor::new(1, 0);
    let mut p = PipelineTask::new(Vec::new(), proc);
    let mut clock = Clock::new(0);
    let r = run(&mut p, &mut clock, 1000);
    assert_eq!(r, Some(Vec::new()));
    assert_eq!(clock.now(), 0);
}

#[test]
fn test_number_stream_yields_then_exhausts() {
    let mut s = NumberStream::new(5);
    let mut got = Vec::new();
    while let Some(n) = s.next() {
        got.push(n);
    }
    assert_eq!(got, vec![0, 1, 2, 3, 4]);
    assert_eq!(s.next(), None);
    assert_eq!(s.next(), None);
}

#[test]
fn test_number_stream_empty() {
    let mut s = NumberStream::new(0);
    assert_eq!(s.next(), None);
    let mut neg = NumberStream::new(-3);
    assert_eq!(neg.next(), None);
}
