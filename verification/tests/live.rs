//! Tests for the live dispatch path over a real bounded channel.

use std::sync::Mutex;

use event_loop::{
    background_worker_step, create_task_channel, drain_gui_queue, gui_submission_outcome,
    submit_background_task, submit_gui_task, GuiSubmission, MainThreadExecutor,
};

/// An executor that records every invocation: the task and the flag.
struct RecordingExecutor {
    log: Mutex<Vec<(u32, bool)>>,
}

impl RecordingExecutor {
    fn new() -> Self {
        RecordingExecutor { log: Mutex::new(Vec::new()) }
    }

    fn entries(&self) -> Vec<(u32, bool)> {
        self.log.lock().unwrap().clone()
    }
}

impl MainThreadExecutor<u32> for RecordingExecutor {
    fn execute(&self, task: u32, is_gui_thread: bool) {
        self.log.lock().unwrap().push((task, is_gui_thread));
    }
}

#[test]
fn outcome_decision_is_exact() {
    assert_eq!(gui_submission_outcome(true, true), GuiSubmission::ExecutedOnMainThread);
    assert_eq!(gui_submission_outcome(true, false), GuiSubmission::ExecutedOnMainThread);
    assert_eq!(gui_submission_outcome(false, true), GuiSubmission::QueuedWithSignal);
    assert_eq!(gui_submission_outcome(false, false), GuiSubmission::Rejected);
    assert!(gui_submission_outcome(false, true).accepted());
    assert!(!gui_submission_outcome(false, false).accepted());
}

#[test]
fn main_thread_submission_runs_synchronously_and_skips_queue() {
    let executor = RecordingExecutor::new();
    let (sender, receiver) = create_task_channel::<u32>(4);
    let outcome = submit_gui_task(&executor, &sender, 7, true);
    assert_eq!(outcome, GuiSubmission::ExecutedOnMainThread);
    assert_eq!(executor.entries(), vec![(7, true)]);
    // Nothing was enqueued.
    assert!(receiver.try_recv().is_err());
}

#[test]
fn cross_thread_submissions_hit_backpressure_at_capacity() {
    // Capacity 2: three rapid submissions with no drain in between accept the
    // first two and reject the third.
    let executor = RecordingExecutor::new();
    let (sender, receiver) = create_task_channel::<u32>(2);
    assert_eq!(submit_gui_task(&executor, &sender, 1, false), GuiSubmission::QueuedWithSignal);
    assert_eq!(submit_gui_task(&executor, &sender, 2, false), GuiSubmission::QueuedWithSignal);
    assert_eq!(submit_gui_task(&executor, &sender, 3, false), GuiSubmission::Rejected);
    // Nothing ran yet; the drain then delivers exactly the accepted two, in
    // order, with the main-thread flag set.
    assert_eq!(executor.entries(), Vec::<(u32, bool)>::new());
    drain_gui_queue(&executor, &receiver);
    assert_eq!(executor.entries(), vec![(1, true), (2, true)]);
    // A second drain finds the queue empty and never blocks.
    drain_gui_queue(&executor, &receiver);
    assert_eq!(executor.entries(), vec![(1, true), (2, true)]);
}

#[test]
fn background_worker_drains_in_submission_order_then_exits() {
    let executor = RecordingExecutor::new();
    let (sender, receiver) = create_task_channel::<u32>(8);
    assert!(submit_background_task(&sender, 10));
    assert!(submit_background_task(&sender, 11));
    assert!(submit_background_task(&sender, 12));
    drop(sender);
    // Drain-then-exit: the buffered tasks still run, in order and off the
    // main thread, and the step reports the closed channel afterwards.
    while background_worker_step(&executor, &receiver) {}
    assert_eq!(executor.entries(), vec![(10, false), (11, false), (12, false)]);
    assert!(!background_worker_step(&executor, &receiver));
}

#[test]
fn background_submission_backpressure_and_closed_channel() {
    let (sender, receiver) = create_task_channel::<u32>(1);
    assert!(submit_background_task(&sender, 1));
    assert!(!submit_background_task(&sender, 2));
    drop(receiver);
    // A submission after the receiving side is gone is plain backpressure.
    assert!(!submit_background_task(&sender, 3));
}

#[test]
fn rejected_gui_task_is_never_delivered() {
    let executor = RecordingExecutor::new();
    let (sender, receiver) = create_task_channel::<u32>(1);
    assert_eq!(submit_gui_task(&executor, &sender, 1, false), GuiSubmission::QueuedWithSignal);
    assert_eq!(submit_gui_task(&executor, &sender, 2, false), GuiSubmission::Rejected);
    drain_gui_queue(&executor, &receiver);
    drain_gui_queue(&executor, &receiver);
    assert_eq!(executor.entries(), vec![(1, true)]);
}
