//! The live dispatch path: the scheduler's decisions around a real bounded
//! multi-producer channel.
//!
//! The channel itself comes from an outside crate and is shared between
//! threads, so nothing can be promised about what a concurrent send or
//! receive observes; the trusted boundary below states only what holds of
//! every outcome, and the decision logic around it is verified. The platform
//! bridge supplies the two facts only it knows: whether the calling thread is
//! the host's main thread, and when the host's run loop visits the drain
//! callback.

use vstd::prelude::*;

use crate::executor::MainThreadExecutor;

verus! {

/// The crossbeam sending end of a task channel.
#[verifier::external_type_specification]
#[verifier::external_body]
#[verifier::reject_recursive_types(T)]
pub struct ExSender<T>(crossbeam::channel::Sender<T>);

/// The crossbeam receiving end of a task channel.
#[verifier::external_type_specification]
#[verifier::external_body]
#[verifier::reject_recursive_types(T)]
pub struct ExReceiver<T>(crossbeam::channel::Receiver<T>);

/// Relies on crossbeam::channel::bounded: a connected channel that buffers at
/// most `capacity` messages.
#[verifier::external_body]
fn channel_bounded<T>(capacity: usize) -> (ends: (
    crossbeam::channel::Sender<T>,
    crossbeam::channel::Receiver<T>,
))
{
    crossbeam::channel::bounded(capacity)
}

/// Relies on crossbeam::channel::Sender::try_send: sends without blocking and
/// reports `Ok` exactly when the message was accepted; a full or disconnected
/// channel hands the message back inside the error, which is dropped here.
#[verifier::external_body]
fn channel_try_send<T>(sender: &crossbeam::channel::Sender<T>, task: T) -> (accepted: bool) {
    sender.try_send(task).is_ok()
}

/// Relies on crossbeam::channel::Receiver::try_recv: receives without
/// blocking and reports `Err` when the channel is empty or disconnected.
#[verifier::external_body]
fn channel_try_recv<T>(receiver: &crossbeam::channel::Receiver<T>) -> (task: Option<T>) {
    receiver.try_recv().ok()
}

/// Relies on crossbeam::channel::Receiver::recv: blocks until a message
/// arrives and reports `Err` only once the channel is empty and every sender
/// is dropped, so the remaining buffered messages are still drained first.
#[verifier::external_body]
fn channel_recv<T>(receiver: &crossbeam::channel::Receiver<T>) -> (task: Option<T>) {
    receiver.recv().ok()
}

/// Relies on crossbeam::channel::Receiver::len: the number of messages in the
/// channel at the moment of the call.
#[verifier::external_body]
fn channel_len<T>(receiver: &crossbeam::channel::Receiver<T>) -> (n: usize) {
    receiver.len()
}

/// What a GUI submission did, so the caller knows which native action is owed:
/// after `QueuedWithSignal` it must signal the wake-up source and wake the
/// host's run loop; the other outcomes require nothing further.
#[derive(Clone, Copy, Debug, PartialEq, Eq, Structural)]
pub enum GuiSubmission {
    /// The caller was the main thread: the task already ran there.
    ExecutedOnMainThread,
    /// The task was enqueued for the main thread; signal the wake-up source.
    QueuedWithSignal,
    /// The queue was full or closed: the task was dropped, backpressure.
    Rejected,
}

impl GuiSubmission {
    /// The boolean the submitter reports: `false` only for backpressure.
    pub fn accepted(&self) -> (r: bool)
        ensures
            r <==> !(self is Rejected),
    {
        !matches!(self, GuiSubmission::Rejected)
    }
}

/// Creates one bounded task channel. A positive capacity keeps the channel a
/// buffer: tasks are accepted without a waiting receiver until it is full.
pub fn create_task_channel<T>(capacity: usize) -> (ends: (
    crossbeam::channel::Sender<T>,
    crossbeam::channel::Receiver<T>,
))
    requires
        capacity >= 1,
{
    channel_bounded(capacity)
}

/// The decision at the heart of `schedule_gui`, from the two facts that
/// determine it: whether the caller is on the main thread, and whether the
/// non-blocking enqueue was accepted.
pub fn gui_submission_outcome(on_main_thread: bool, enqueued: bool) -> (r: GuiSubmission)
    ensures
        on_main_thread ==> r == GuiSubmission::ExecutedOnMainThread,
        !on_main_thread && enqueued ==> r == GuiSubmission::QueuedWithSignal,
        !on_main_thread && !enqueued ==> r == GuiSubmission::Rejected,
{
    if on_main_thread {
        GuiSubmission::ExecutedOnMainThread
    } else if enqueued {
        GuiSubmission::QueuedWithSignal
    } else {
        GuiSubmission::Rejected
    }
}

/// Submits a task to run on the host's main thread. When the caller already
/// is the main thread the executor runs synchronously, with the flag set,
/// before this returns, and the queue is never touched; otherwise the task is
/// enqueued without blocking and the caller owes the wake-up signal exactly
/// when the result says so. `on_main_thread` is the host's answer to the
/// thread-identity query for the calling thread.
pub fn submit_gui_task<T, E: MainThreadExecutor<T>>(
    executor: &E,
    sender: &crossbeam::channel::Sender<T>,
    task: T,
    on_main_thread: bool,
) -> (r: GuiSubmission)
    ensures
        on_main_thread <==> r == GuiSubmission::ExecutedOnMainThread,
{
    if on_main_thread {
        executor.execute(task, true);
        GuiSubmission::ExecutedOnMainThread
    } else {
        let enqueued = channel_try_send(sender, task);
        gui_submission_outcome(false, enqueued)
    }
}

/// Submits a task to the background worker without blocking. `true` iff the
/// task was accepted; `false` is the backpressure signal (the queue was full
/// or the worker is gone) and the task is dropped.
pub fn submit_background_task<T>(sender: &crossbeam::channel::Sender<T>, task: T) -> (accepted:
    bool) {
    channel_try_send(sender, task)
}

/// The body of the wake-up callback: drains the main-thread queue without
/// ever blocking, executing each received task with the main-thread flag set,
/// until the queue reports empty. Level-triggered: it must be called on the
/// main thread, in response to a signaled wake-up source. Tasks that arrive
/// while the drain runs are signaled by their submitters and picked up by the
/// next visit.
pub fn drain_gui_queue<T, E: MainThreadExecutor<T>>(
    executor: &E,
    receiver: &crossbeam::channel::Receiver<T>,
) {
    let mut budget = channel_len(receiver);
    while budget > 0
        decreases budget,
    {
        budget = budget - 1;
        match channel_try_recv(receiver) {
            Some(task) => executor.execute(task, true),
            None => {
                break;
            }
        }
    }
}

/// One blocking step of the background worker's loop: waits for a task and
/// executes it with the main-thread flag cleared. Returns `false` only once
/// the channel is empty and every sender is dropped; the worker thread must
/// then exit, having drained every task that was still buffered.
pub fn background_worker_step<T, E: MainThreadExecutor<T>>(
    executor: &E,
    receiver: &crossbeam::channel::Receiver<T>,
) -> (running: bool) {
    match channel_recv(receiver) {
        Some(task) => {
            executor.execute(task, false);
            true
        }
        None => false,
    }
}

} // verus!
