//! The scheduling laws, proved over the transition functions of
//! [`crate::scheduler`].

use vstd::prelude::*;

use crate::scheduler::{
    background_step, deliveries_of, delivered, drain_step, gui_step, init_view, inv, quiescent,
    teardown_step, worker_step, Delivery, EventLoopView,
};

verus! {

/// The state after a batch of tasks was submitted to the background queue,
/// in order, by one producer.
pub open spec fn submit_background_all<T>(v: EventLoopView<T>, tasks: Seq<T>) -> EventLoopView<T>
    decreases tasks.len(),
{
    if tasks.len() == 0 {
        v
    } else {
        submit_background_all(background_step(v, tasks[0]).0, tasks.drop_first())
    }
}

/// The state after the background worker has run every pending task.
pub open spec fn worker_run_all<T>(v: EventLoopView<T>) -> EventLoopView<T>
    decreases v.background_pending.len(),
{
    if v.background_pending.len() == 0 {
        v
    } else {
        worker_run_all(worker_step(v))
    }
}

/// Every transition of the scheduler preserves the state invariant.
pub proof fn lemma_inv_preserved<T>(v: EventLoopView<T>, task: T, on_main_thread: bool)
    requires
        inv(v),
    ensures
        inv(gui_step(v, task, on_main_thread).0),
        inv(background_step(v, task).0),
        inv(drain_step(v)),
        inv(worker_step(v)),
        inv(teardown_step(v)),
{
}

/// A GUI submission from the main thread always succeeds and executes the
/// task synchronously with the main-thread flag set; the queue, the wake-up
/// source and the background side are never touched.
pub proof fn lemma_main_thread_fast_path<T>(v: EventLoopView<T>, task: T)
    ensures
        ({
            let (v1, accepted) = gui_step(v, task, true);
            &&& accepted
            &&& v1.executed == v.executed.push(delivered(task, true))
            &&& v1.main_pending == v.main_pending
            &&& v1.signal_pending == v.signal_pending
            &&& v1.background_pending == v.background_pending
            &&& v1.registered == v.registered
        }),
{
}

/// A GUI submission from a non-main thread into a queue with spare capacity
/// is accepted, signals the wake-up source, and the next drain hands the task
/// to the executor with the main-thread flag set exactly once: the drain
/// delivers the tasks that were already waiting, in order, and the submitted
/// task once at the end.
pub proof fn lemma_gui_submission_delivered<T>(v: EventLoopView<T>, task: T)
    requires
        inv(v),
        v.registered,
        v.main_pending.len() < v.capacity,
    ensures
        ({
            let (v1, accepted) = gui_step(v, task, false);
            let v2 = drain_step(v1);
            &&& accepted
            &&& v1.signal_pending
            &&& v1.executed == v.executed
            &&& v2.executed == v.executed + deliveries_of(v.main_pending, true).push(
                delivered(task, true),
            )
            &&& v2.main_pending.len() == 0
            &&& !v2.signal_pending
        }),
{
    let v1 = gui_step(v, task, false).0;
    let v2 = drain_step(v1);
    assert(deliveries_of(v.main_pending.push(task), true) =~= deliveries_of(
        v.main_pending,
        true,
    ).push(delivered(task, true)));
    assert(v2.executed =~= v.executed + deliveries_of(v.main_pending, true).push(
        delivered(task, true),
    ));
}

/// A GUI submission from a non-main thread against a saturated queue, or
/// after teardown has begun, is rejected and the task is not delivered: the
/// whole state, the delivery log included, is exactly what it was.
pub proof fn lemma_gui_backpressure<T>(v: EventLoopView<T>, task: T)
    requires
        v.main_pending.len() >= v.capacity || !v.registered,
    ensures
        ({
            let (v1, accepted) = gui_step(v, task, false);
            &&& !accepted
            &&& v1 == v
        }),
{
}

/// A background submission against a saturated queue, or after teardown has
/// begun, is rejected and the task is not delivered: the whole state, the
/// delivery log included, is exactly what it was.
pub proof fn lemma_background_backpressure<T>(v: EventLoopView<T>, task: T)
    requires
        v.background_pending.len() >= v.capacity || !v.registered,
    ensures
        ({
            let (v1, accepted) = background_step(v, task);
            &&& !accepted
            &&& v1 == v
        }),
{
}

/// How many further background submissions the queue accepts before
/// saturation.
pub open spec fn background_room<T>(v: EventLoopView<T>) -> nat {
    if v.registered && v.background_pending.len() < v.capacity {
        (v.capacity - v.background_pending.len()) as nat
    } else {
        0
    }
}

/// Rapid submissions from one producer with no draining in between are
/// accepted exactly up to the spare room: the accepted prefix is appended in
/// submission order and the rest is dropped without a trace.
pub proof fn lemma_background_saturation<T>(v: EventLoopView<T>, tasks: Seq<T>)
    requires
        inv(v),
    ensures
        ({
            let v1 = submit_background_all(v, tasks);
            let kept = if tasks.len() <= background_room(v) {
                tasks
            } else {
                tasks.take(background_room(v) as int)
            };
            &&& v1.background_pending == v.background_pending + kept
            &&& v1.executed == v.executed
            &&& v1.main_pending == v.main_pending
            &&& v1.capacity == v.capacity
            &&& v1.registered == v.registered
            &&& v1.signal_pending == v.signal_pending
        }),
    decreases tasks.len(),
{
    let v1 = submit_background_all(v, tasks);
    let room = background_room(v);
    let kept = if tasks.len() <= room {
        tasks
    } else {
        tasks.take(room as int)
    };
    if tasks.len() == 0 {
        assert(v.background_pending + kept =~= v.background_pending);
    } else if v.registered && v.background_pending.len() < v.capacity {
        let vs = background_step(v, tasks[0]).0;
        lemma_background_saturation(vs, tasks.drop_first());
        let rest = tasks.drop_first();
        let kept_rest = if rest.len() <= background_room(vs) {
            rest
        } else {
            rest.take(background_room(vs) as int)
        };
        assert(background_room(vs) == room - 1);
        if tasks.len() <= room {
            assert(kept_rest =~= rest);
            assert(vs.background_pending + kept_rest =~= v.background_pending + kept);
        } else {
            assert(kept =~= seq![tasks[0]] + rest.take(room - 1));
            assert(vs.background_pending + kept_rest =~= v.background_pending + kept);
        }
    } else {
        assert(background_step(v, tasks[0]).0 == v);
        lemma_background_saturation(v, tasks.drop_first());
        let rest = tasks.drop_first();
        assert(rest.take(0) =~= Seq::<T>::empty());
        assert(v.background_pending + kept =~= v.background_pending);
        assert(v.background_pending + rest.take(0) =~= v.background_pending);
    }
}

/// Submitting a batch of tasks to the background queue, one producer, all
/// within capacity, appends them to the pending tasks in submission order and
/// executes nothing yet.
pub proof fn lemma_submit_background_all<T>(v: EventLoopView<T>, tasks: Seq<T>)
    requires
        inv(v),
        v.registered,
        v.background_pending.len() + tasks.len() <= v.capacity,
    ensures
        ({
            let v1 = submit_background_all(v, tasks);
            &&& v1.background_pending == v.background_pending + tasks
            &&& v1.executed == v.executed
            &&& v1.main_pending == v.main_pending
            &&& v1.capacity == v.capacity
            &&& v1.registered
            &&& v1.signal_pending == v.signal_pending
        }),
    decreases tasks.len(),
{
    if tasks.len() == 0 {
        assert(v.background_pending + tasks =~= v.background_pending);
    } else {
        let vs = background_step(v, tasks[0]).0;
        lemma_submit_background_all(vs, tasks.drop_first());
        assert(vs.background_pending + tasks.drop_first() =~= v.background_pending + tasks);
    }
}

/// The background worker drains its queue in order: running every pending
/// task appends exactly one delivery per task, oldest first, each with the
/// main-thread flag cleared.
pub proof fn lemma_worker_run_all<T>(v: EventLoopView<T>)
    ensures
        ({
            let v1 = worker_run_all(v);
            &&& v1.executed == v.executed + deliveries_of(v.background_pending, false)
            &&& v1.background_pending.len() == 0
            &&& v1.main_pending == v.main_pending
            &&& v1.capacity == v.capacity
            &&& v1.registered == v.registered
            &&& v1.signal_pending == v.signal_pending
        }),
    decreases v.background_pending.len(),
{
    if v.background_pending.len() == 0 {
        assert(v.executed + deliveries_of(v.background_pending, false) =~= v.executed);
    } else {
        let vs = worker_step(v);
        lemma_worker_run_all(vs);
        assert(vs.executed + deliveries_of(vs.background_pending, false) =~= v.executed
            + deliveries_of(v.background_pending, false));
    }
}

/// Tasks submitted to the background queue by a single producer are observed
/// by the executor in submission order, each with the main-thread flag
/// cleared: after the worker has drained the queue, the delivery log has
/// grown by exactly the previously pending tasks followed by the submitted
/// batch, in order.
pub proof fn lemma_background_submission_order<T>(v: EventLoopView<T>, tasks: Seq<T>)
    requires
        inv(v),
        v.registered,
        v.background_pending.len() + tasks.len() <= v.capacity,
    ensures
        worker_run_all(submit_background_all(v, tasks)).executed == v.executed + deliveries_of(
            v.background_pending + tasks,
            false,
        ),
{
    lemma_submit_background_all(v, tasks);
    lemma_worker_run_all(submit_background_all(v, tasks));
}

/// Teardown leaves no dangling native registration, no pending signal and no
/// pending task, and tearing an already torn-down instance down again changes
/// nothing at all.
pub proof fn lemma_teardown_quiescent<T>(v: EventLoopView<T>)
    ensures
        !teardown_step(v).registered,
        v.registered ==> quiescent(teardown_step(v)),
        teardown_step(teardown_step(v)) == teardown_step(v),
{
}

/// A scheduler that is constructed and torn down straight away delivers no
/// task and holds no resource afterwards; construction and teardown can
/// therefore be repeated without a leak.
pub proof fn lemma_construct_teardown_no_leak<T>(capacity: nat)
    ensures
        quiescent(teardown_step(init_view::<T>(capacity))),
        teardown_step(init_view::<T>(capacity)).executed == Seq::<Delivery<T>>::empty(),
{
    let v = init_view::<T>(capacity);
    assert(teardown_step(v).executed =~= Seq::<Delivery<T>>::empty());
}

} // verus!
