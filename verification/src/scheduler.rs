//! The event-loop scheduler: a state machine over two bounded task queues.
//!
//! One queue feeds the host's main/GUI thread (drained by a wake-up callback
//! registered with the host's run loop), the other feeds a dedicated
//! background worker. Submissions never block: a saturated queue rejects the
//! task and the caller gets a boolean backpressure signal. The fast path runs
//! a task synchronously when the submitter already is the main thread.
//!
//! Every transition is specified as a pure function over [`EventLoopView`];
//! the executable [`EventLoopModel`] is proved to follow those transitions
//! exactly, and the scheduling laws are proved about the transitions
//! themselves.

use vstd::prelude::*;

use crate::queue::BoundedQueue;

verus! {

/// One executor invocation: the task handed over and whether the main-thread
/// flag was set for it.
#[verifier::ext_equal]
pub struct Delivery<T> {
    pub task: T,
    pub on_main_thread: bool,
}

/// The abstract state of one event-loop instance.
#[verifier::ext_equal]
pub struct EventLoopView<T> {
    /// The fixed capacity of each of the two queues.
    pub capacity: nat,
    /// Whether the native wake-up source is still registered with the host's
    /// run loop, i.e. teardown has not happened yet.
    pub registered: bool,
    /// Whether the wake-up source has been signaled and the host's run loop
    /// has not visited the drain callback since.
    pub signal_pending: bool,
    /// Tasks waiting to be drained on the main thread, oldest first.
    pub main_pending: Seq<T>,
    /// Tasks waiting for the background worker, oldest first.
    pub background_pending: Seq<T>,
    /// Every executor invocation so far, in order.
    pub executed: Seq<Delivery<T>>,
}

/// The delivery record of one task.
pub open spec fn delivered<T>(task: T, on_main_thread: bool) -> Delivery<T> {
    Delivery { task, on_main_thread }
}

/// The delivery records of a batch of tasks, all with the same flag.
pub open spec fn deliveries_of<T>(tasks: Seq<T>, on_main_thread: bool) -> Seq<Delivery<T>> {
    tasks.map_values(|t: T| delivered(t, on_main_thread))
}

/// The state invariant: both queues respect the (positive) capacity.
pub open spec fn inv<T>(v: EventLoopView<T>) -> bool {
    &&& v.capacity >= 1
    &&& v.main_pending.len() <= v.capacity
    &&& v.background_pending.len() <= v.capacity
}

/// A freshly constructed instance: wake-up source registered, nothing
/// pending, nothing executed.
pub open spec fn init_view<T>(capacity: nat) -> EventLoopView<T> {
    EventLoopView {
        capacity,
        registered: true,
        signal_pending: false,
        main_pending: Seq::empty(),
        background_pending: Seq::empty(),
        executed: Seq::empty(),
    }
}

/// A torn-down instance holds no native registration, no pending signal and
/// no pending task: nothing is left to leak or to run.
pub open spec fn quiescent<T>(v: EventLoopView<T>) -> bool {
    &&& !v.registered
    &&& !v.signal_pending
    &&& v.main_pending.len() == 0
    &&& v.background_pending.len() == 0
}

/// Submitting a task for the main thread. On the main thread the executor
/// runs synchronously with the flag set and the queue is never touched.
/// From any other thread the task is enqueued and the wake-up source
/// signaled, unless the queue is saturated or teardown has begun, in which
/// case nothing changes and the submission is rejected.
pub open spec fn gui_step<T>(
    v: EventLoopView<T>,
    task: T,
    on_main_thread: bool,
) -> (EventLoopView<T>, bool) {
    if on_main_thread {
        (
            EventLoopView {
                executed: v.executed.push(delivered(task, true)),
                ..v
            },
            true,
        )
    } else if v.registered && v.main_pending.len() < v.capacity {
        (
            EventLoopView {
                main_pending: v.main_pending.push(task),
                signal_pending: true,
                ..v
            },
            true,
        )
    } else {
        (v, false)
    }
}

/// Submitting a task for the background worker: enqueued when there is spare
/// capacity and teardown has not begun, rejected otherwise.
pub open spec fn background_step<T>(v: EventLoopView<T>, task: T) -> (EventLoopView<T>, bool) {
    if v.registered && v.background_pending.len() < v.capacity {
        (
            EventLoopView {
                background_pending: v.background_pending.push(task),
                ..v
            },
            true,
        )
    } else {
        (v, false)
    }
}

/// The drain callback the host's run loop visits on the main thread after the
/// wake-up source was signaled: every pending main-thread task is executed
/// with the flag set, in submission order, and the signal is cleared.
pub open spec fn drain_step<T>(v: EventLoopView<T>) -> EventLoopView<T> {
    EventLoopView {
        signal_pending: false,
        main_pending: Seq::empty(),
        executed: v.executed + deliveries_of(v.main_pending, true),
        ..v
    }
}

/// One step of the background worker: the oldest pending background task is
/// executed with the flag cleared; an empty queue changes nothing.
pub open spec fn worker_step<T>(v: EventLoopView<T>) -> EventLoopView<T> {
    if v.background_pending.len() == 0 {
        v
    } else {
        EventLoopView {
            background_pending: v.background_pending.drop_first(),
            executed: v.executed.push(delivered(v.background_pending[0], false)),
            ..v
        }
    }
}

/// Teardown: the wake-up source is invalidated exactly once, undelivered
/// main-thread tasks are silently discarded, and the background worker drains
/// its remaining tasks before exiting. Tearing down an already torn-down
/// instance changes nothing.
pub open spec fn teardown_step<T>(v: EventLoopView<T>) -> EventLoopView<T> {
    if v.registered {
        EventLoopView {
            registered: false,
            signal_pending: false,
            main_pending: Seq::empty(),
            background_pending: Seq::empty(),
            executed: v.executed + deliveries_of(v.background_pending, false),
            ..v
        }
    } else {
        v
    }
}

/// The executable event-loop state machine. It is the platform-neutral heart
/// of the scheduler: the platform bridge owns one, feeds it the facts only
/// the platform knows (whether the caller is the main thread, when the run
/// loop visits the callback) and performs the native actions its transitions
/// call for (signaling and invalidating the wake-up source).
pub struct EventLoopModel<T> {
    main_queue: BoundedQueue<T>,
    background_queue: BoundedQueue<T>,
    registered: bool,
    signal_pending: bool,
    executed: Vec<Delivery<T>>,
}

impl<T> View for EventLoopModel<T> {
    type V = EventLoopView<T>;

    closed spec fn view(&self) -> EventLoopView<T> {
        EventLoopView {
            capacity: self.main_queue.capacity(),
            registered: self.registered,
            signal_pending: self.signal_pending,
            main_pending: self.main_queue@,
            background_pending: self.background_queue@,
            executed: self.executed@,
        }
    }
}

impl<T> EventLoopModel<T> {
    /// Both queues are well formed and share one capacity.
    pub closed spec fn wf(&self) -> bool {
        &&& self.main_queue.wf()
        &&& self.background_queue.wf()
        &&& self.background_queue.capacity() == self.main_queue.capacity()
    }

    /// Creates an instance with both queues empty and the wake-up source
    /// registered.
    pub fn new(capacity: usize) -> (s: Self)
        requires
            capacity >= 1,
        ensures
            s.wf(),
            s@ == init_view::<T>(capacity as nat),
    {
        let s = EventLoopModel {
            main_queue: BoundedQueue::new(capacity),
            background_queue: BoundedQueue::new(capacity),
            registered: true,
            signal_pending: false,
            executed: Vec::new(),
        };
        proof {
            assert(s@ =~= init_view::<T>(capacity as nat));
        }
        s
    }

    /// Submits a task to run on the main thread. `on_main_thread` is the
    /// host's answer to the thread-identity query for the calling thread.
    /// Returns `true` iff the task was executed on the spot or accepted into
    /// the queue; `false` is the backpressure signal and the task is dropped.
    pub fn schedule_gui(&mut self, task: T, on_main_thread: bool) -> (accepted: bool)
        requires
            old(self).wf(),
        ensures
            final(self).wf(),
            final(self)@ == gui_step(old(self)@, task, on_main_thread).0,
            accepted == gui_step(old(self)@, task, on_main_thread).1,
    {
        if on_main_thread {
            self.executed.push(Delivery { task, on_main_thread: true });
            proof {
                assert(self@ =~= gui_step(old(self)@, task, true).0);
            }
            true
        } else if self.registered {
            let accepted = self.main_queue.try_enqueue(task);
            if accepted {
                self.signal_pending = true;
            }
            proof {
                assert(self@ =~= gui_step(old(self)@, task, false).0);
            }
            accepted
        } else {
            proof {
                assert(self@ =~= gui_step(old(self)@, task, false).0);
            }
            false
        }
    }

    /// Submits a task to the background worker. Returns `true` iff the task
    /// was accepted; `false` is the backpressure signal and the task is
    /// dropped.
    pub fn schedule_background(&mut self, task: T) -> (accepted: bool)
        requires
            old(self).wf(),
        ensures
            final(self).wf(),
            final(self)@ == background_step(old(self)@, task).0,
            accepted == background_step(old(self)@, task).1,
    {
        if self.registered {
            let accepted = self.background_queue.try_enqueue(task);
            proof {
                assert(self@ =~= background_step(old(self)@, task).0);
            }
            accepted
        } else {
            proof {
                assert(self@ =~= background_step(old(self)@, task).0);
            }
            false
        }
    }

    /// The drain callback: executes every pending main-thread task with the
    /// flag set, in submission order, and clears the wake-up signal. It never
    /// waits for further tasks: an empty queue returns at once.
    pub fn drain_main(&mut self)
        requires
            old(self).wf(),
        ensures
            final(self).wf(),
            final(self)@ == drain_step(old(self)@),
    {
        let pending = self.main_queue.drain();
        append_deliveries(&mut self.executed, pending, true);
        self.signal_pending = false;
        proof {
            assert(self@ =~= drain_step(old(self)@));
        }
    }

    /// One step of the background worker: executes the oldest pending
    /// background task with the flag cleared. Returns `true` iff a task ran.
    pub fn run_background_task(&mut self) -> (ran: bool)
        requires
            old(self).wf(),
        ensures
            final(self).wf(),
            final(self)@ == worker_step(old(self)@),
            ran <==> old(self)@.background_pending.len() > 0,
    {
        match self.background_queue.try_dequeue() {
            Some(task) => {
                self.executed.push(Delivery { task, on_main_thread: false });
                proof {
                    assert(self@ =~= worker_step(old(self)@));
                }
                true
            }
            None => {
                proof {
                    assert(self@ =~= worker_step(old(self)@));
                }
                false
            }
        }
    }

    /// Teardown: invalidates the wake-up source (exactly once), discards the
    /// undelivered main-thread tasks and lets the background worker drain its
    /// queue before exiting. Calling it again changes nothing.
    pub fn teardown(&mut self)
        requires
            old(self).wf(),
        ensures
            final(self).wf(),
            final(self)@ == teardown_step(old(self)@),
    {
        if self.registered {
            self.registered = false;
            self.signal_pending = false;
            let discarded = self.main_queue.drain();
            let remaining = self.background_queue.drain();
            append_deliveries(&mut self.executed, remaining, false);
            proof {
                assert(self@ =~= teardown_step(old(self)@));
            }
        } else {
            proof {
                assert(self@ =~= teardown_step(old(self)@));
            }
        }
    }

    /// Whether teardown has not happened yet.
    pub fn is_registered(&self) -> (r: bool)
        ensures
            r == self@.registered,
    {
        self.registered
    }

    /// Whether the wake-up source is signaled and not yet drained.
    pub fn has_pending_signal(&self) -> (r: bool)
        ensures
            r == self@.signal_pending,
    {
        self.signal_pending
    }

    /// How many tasks wait for the main thread.
    pub fn main_pending_len(&self) -> (n: usize)
        ensures
            n as nat == self@.main_pending.len(),
    {
        self.main_queue.len()
    }

    /// How many tasks wait for the background worker.
    pub fn background_pending_len(&self) -> (n: usize)
        ensures
            n as nat == self@.background_pending.len(),
    {
        self.background_queue.len()
    }

    /// Every executor invocation so far, in order.
    pub fn executed_log(&self) -> (log: &Vec<Delivery<T>>)
        ensures
            log@ == self@.executed,
    {
        &self.executed
    }
}

/// Appends one delivery record per task, in order, all with the same flag.
fn append_deliveries<T>(log: &mut Vec<Delivery<T>>, tasks: Vec<T>, on_main_thread: bool)
    ensures
        final(log)@ == old(log)@ + deliveries_of(tasks@, on_main_thread),
{
    let ghost all = tasks@;
    let mut rest = tasks;
    while rest.len() > 0
        invariant
            all.len() >= rest@.len(),
            rest@ == all.skip(all.len() - rest@.len()),
            log@ == old(log)@ + deliveries_of(all.take(all.len() - rest@.len()), on_main_thread),
        decreases rest@.len(),
    {
        let ghost k = all.len() - rest@.len();
        let task = rest.remove(0);
        log.push(Delivery { task, on_main_thread });
        proof {
            assert(rest@ =~= all.skip(k + 1));
            assert(all.take(k + 1) =~= all.take(k).push(all[k]));
            assert(deliveries_of(all.take(k + 1), on_main_thread) =~= deliveries_of(
                all.take(k),
                on_main_thread,
            ).push(delivered(all[k], on_main_thread)));
        }
    }
    proof {
        assert(all.take(all.len() as int) =~= all);
    }
}

} // verus!
