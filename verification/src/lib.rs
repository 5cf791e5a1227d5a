//! A cross-thread task scheduler for plugins that must run work on a host's
//! main/GUI thread and on a dedicated background worker thread, without ever
//! blocking the producer.
//!
//! The scheduling decisions (fast path on the main thread, bounded enqueue
//! with backpressure, level-triggered drain, drain-then-exit worker shutdown,
//! invalidate-once teardown) are verified here over an explicit model; the
//! live path drives a bounded channel through a small trusted boundary.

use vstd::prelude::*;

pub mod dispatch;
pub mod executor;
pub mod laws;
pub mod queue;
pub mod scheduler;

pub use dispatch::{
    background_worker_step, create_task_channel, drain_gui_queue, gui_submission_outcome,
    submit_background_task, submit_gui_task, GuiSubmission,
};
pub use executor::MainThreadExecutor;
pub use queue::BoundedQueue;
pub use scheduler::{Delivery, EventLoopModel, EventLoopView};

verus! {

/// The capacity every task queue of the scheduler is created with. Bounded to
/// provide a clear backpressure signal instead of unbounded growth.
pub const TASK_QUEUE_CAPACITY: usize = 512;

} // verus!
