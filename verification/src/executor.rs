//! The capability that interprets and performs tasks.

use vstd::prelude::*;

verus! {

/// The consumer-supplied capability that performs one task. The scheduler
/// treats tasks as opaque: this is the only place their meaning lives.
///
/// One instance is shared by every thread that may dispatch work. Calls
/// arrive from the main-thread drain path and from the background worker, so
/// an implementation is responsible for its own internal synchronization; it
/// must not block indefinitely. `is_gui_thread` is set exactly when the call
/// runs on the host's main/GUI thread.
pub trait MainThreadExecutor<T>: Sync + Send {
    fn execute(&self, task: T, is_gui_thread: bool);
}

} // verus!
