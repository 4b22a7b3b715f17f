use engine_prune::controller::{EnginePruneController, PruneTask};
use engine_prune::event::EnginePruneEvent;
use futures::task::noop_waker_ref;
use std::task::{Context, Poll};

#[derive(Debug, PartialEq, Eq)]
struct StubPruner {
    id: u32,
    runs: u32,
}

#[derive(Debug, PartialEq, Eq)]
enum StubError {
    InconsistentData,
}

type Controller = EnginePruneController<StubPruner, StubError>;
type Task = PruneTask<StubPruner, StubError>;

fn fresh() -> Controller {
    EnginePruneController::new(StubPruner { id: 1, runs: 0 })
}

/// What a background worker does with a task: run, then send the capability back.
fn complete(task: Task, result: Result<(), StubError>) {
    let mut pruner = task.pruner;
    pruner.runs += 1;
    assert!(task.completion.send((pruner, result)).is_ok());
}

#[test]
fn fresh_controller_without_tip_reports_not_ready() {
    let mut cx = Context::from_waker(noop_waker_ref());
    let mut controller = fresh();
    assert!(controller.is_pruner_idle());
    let (event, task) = controller.poll(&mut cx, None);
    assert_eq!(event, Poll::Ready(EnginePruneEvent::NotReady));
    assert!(task.is_none());
    assert!(controller.is_pruner_idle());
}

#[test]
fn eligible_tip_starts_a_run() {
    let mut cx = Context::from_waker(noop_waker_ref());
    let mut controller = fresh();
    let (event, task) = controller.poll(&mut cx, Some(1000));
    assert_eq!(event, Poll::Ready(EnginePruneEvent::Started(1000)));
    assert!(!controller.is_pruner_idle());
    let task = task.expect("a started run comes with its task");
    assert_eq!(task.tip_block_number, 1000);
    assert_eq!(task.pruner, StubPruner { id: 1, runs: 0 });
}

#[test]
fn poll_before_the_worker_replies_is_pending() {
    let mut cx = Context::from_waker(noop_waker_ref());
    let mut controller = fresh();
    let (_, task) = controller.poll(&mut cx, Some(1000));
    let _held = task.expect("a started run comes with its task");
    let (event, task) = controller.poll(&mut cx, None);
    assert_eq!(event, Poll::Pending);
    assert!(task.is_none());
    assert!(!controller.is_pruner_idle());
    // a tip that shows up meanwhile is not looked at
    let (event, task) = controller.poll(&mut cx, Some(2000));
    assert_eq!(event, Poll::Pending);
    assert!(task.is_none());
    assert!(!controller.is_pruner_idle());
}

#[test]
fn successful_run_finishes_and_the_next_tip_starts_again() {
    let mut cx = Context::from_waker(noop_waker_ref());
    let mut controller = fresh();
    let (_, task) = controller.poll(&mut cx, Some(1000));
    complete(task.expect("a started run comes with its task"), Ok(()));

    let (event, task) = controller.poll(&mut cx, None);
    assert_eq!(event, Poll::Ready(EnginePruneEvent::Finished { result: Ok(()) }));
    assert!(task.is_none());
    assert!(controller.is_pruner_idle());

    let (event, task) = controller.poll(&mut cx, Some(2000));
    assert_eq!(event, Poll::Ready(EnginePruneEvent::Started(2000)));
    assert!(!controller.is_pruner_idle());
    let task = task.expect("a started run comes with its task");
    assert_eq!(task.tip_block_number, 2000);
    // the capability that came back is the one that goes out again
    assert_eq!(task.pruner, StubPruner { id: 1, runs: 1 });
}

#[test]
fn failed_run_reports_its_error_and_the_controller_is_reusable() {
    let mut cx = Context::from_waker(noop_waker_ref());
    let mut controller = fresh();
    let (_, task) = controller.poll(&mut cx, Some(1000));
    complete(task.expect("a started run comes with its task"), Err(StubError::InconsistentData));

    let (event, task) = controller.poll(&mut cx, None);
    assert_eq!(
        event,
        Poll::Ready(EnginePruneEvent::Finished { result: Err(StubError::InconsistentData) })
    );
    assert!(task.is_none());
    assert!(controller.is_pruner_idle());

    let (event, _) = controller.poll(&mut cx, None);
    assert_eq!(event, Poll::Ready(EnginePruneEvent::NotReady));
    let (event, task) = controller.poll(&mut cx, Some(1001));
    assert_eq!(event, Poll::Ready(EnginePruneEvent::Started(1001)));
    assert_eq!(task.expect("a started run comes with its task").pruner.runs, 1);
}

#[test]
fn dropped_task_is_reported_and_the_controller_stays_busy() {
    let mut cx = Context::from_waker(noop_waker_ref());
    let mut controller = fresh();
    let (_, task) = controller.poll(&mut cx, Some(1000));
    // the worker goes away without a reply
    drop(task);

    let (event, task) = controller.poll(&mut cx, None);
    assert_eq!(event, Poll::Ready(EnginePruneEvent::TaskDropped));
    assert!(task.is_none());
    assert!(!controller.is_pruner_idle());

    // the loss is reported once; nothing brings the controller back
    for tip in [None, Some(2000), None, Some(3000)] {
        let (event, task) = controller.poll(&mut cx, tip);
        assert_eq!(event, Poll::Pending);
        assert!(task.is_none());
        assert!(!controller.is_pruner_idle());
    }
}
