//! A bounded FIFO task queue.
//!
//! This is the reference semantics of the scheduler's bounded channels:
//! enqueue never blocks and fails when the queue is at capacity
//! (backpressure), dequeue never blocks and returns the oldest task.

use vstd::prelude::*;

verus! {

/// A fixed-capacity first-in-first-out queue. A full queue rejects new tasks
/// instead of blocking or growing: the caller gets a boolean backpressure
/// signal and decides what to do.
pub struct BoundedQueue<T> {
    tasks: Vec<T>,
    capacity: usize,
}

impl<T> View for BoundedQueue<T> {
    type V = Seq<T>;

    /// The pending tasks, oldest first.
    closed spec fn view(&self) -> Seq<T> {
        self.tasks@
    }
}

impl<T> BoundedQueue<T> {
    /// The fixed capacity the queue was created with.
    pub closed spec fn capacity(&self) -> nat {
        self.capacity as nat
    }

    /// The queue never holds more tasks than its capacity, and the capacity
    /// is positive so that at least one task can always be pending.
    pub closed spec fn wf(&self) -> bool {
        &&& self@.len() <= self.capacity()
        &&& self.capacity() >= 1
    }

    /// Creates an empty queue of the given capacity.
    pub fn new(capacity: usize) -> (q: Self)
        requires
            capacity >= 1,
        ensures
            q.wf(),
            q@ == Seq::<T>::empty(),
            q.capacity() == capacity as nat,
    {
        BoundedQueue { tasks: Vec::new(), capacity }
    }

    /// How many tasks are pending.
    pub fn len(&self) -> (n: usize)
        ensures
            n as nat == self@.len(),
    {
        self.tasks.len()
    }

    /// Whether the queue holds no task.
    pub fn is_empty(&self) -> (r: bool)
        ensures
            r <==> self@.len() == 0,
    {
        self.tasks.is_empty()
    }

    /// Whether the queue is at capacity, i.e. the next enqueue would be
    /// rejected.
    pub fn is_full(&self) -> (r: bool)
        requires
            self.wf(),
        ensures
            r <==> self@.len() == self.capacity(),
    {
        self.tasks.len() == self.capacity
    }

    /// Non-blocking enqueue: appends the task when there is spare capacity
    /// and returns `true`; when the queue is saturated it is left untouched
    /// and `false` signals backpressure.
    pub fn try_enqueue(&mut self, task: T) -> (accepted: bool)
        requires
            old(self).wf(),
        ensures
            final(self).wf(),
            final(self).capacity() == old(self).capacity(),
            accepted <==> old(self)@.len() < old(self).capacity(),
            accepted ==> final(self)@ == old(self)@.push(task),
            !accepted ==> final(self)@ == old(self)@,
    {
        if self.tasks.len() < self.capacity {
            self.tasks.push(task);
            true
        } else {
            false
        }
    }

    /// Non-blocking dequeue: removes and returns the oldest pending task, or
    /// `None` when the queue is empty. It never waits for a task to arrive.
    pub fn try_dequeue(&mut self) -> (task: Option<T>)
        requires
            old(self).wf(),
        ensures
            final(self).wf(),
            final(self).capacity() == old(self).capacity(),
            old(self)@.len() == 0 ==> task is None && final(self)@ == old(self)@,
            old(self)@.len() > 0 ==> task == Some(old(self)@[0]) && final(self)@ == old(self)@.drop_first(),
    {
        if self.tasks.is_empty() {
            None
        } else {
            let task = self.tasks.remove(0);
            proof {
                assert(self@ =~= old(self)@.drop_first());
            }
            Some(task)
        }
    }

    /// Removes every pending task, oldest first, and hands them back; the
    /// queue is left empty.
    pub fn drain(&mut self) -> (tasks: Vec<T>)
        requires
            old(self).wf(),
        ensures
            final(self).wf(),
            final(self).capacity() == old(self).capacity(),
            final(self)@ == Seq::<T>::empty(),
            tasks@ == old(self)@,
    {
        let mut drained: Vec<T> = Vec::new();
        std::mem::swap(&mut drained, &mut self.tasks);
        drained
    }
}

} // verus!
