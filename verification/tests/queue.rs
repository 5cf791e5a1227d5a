//! Tests for the bounded FIFO queue.

use event_loop::BoundedQueue;

#[test]
fn enqueue_dequeue_in_order() {
    let mut q: BoundedQueue<u32> = BoundedQueue::new(3);
    assert!(q.is_empty());
    assert!(q.try_enqueue(1));
    assert!(q.try_enqueue(2));
    assert!(q.try_enqueue(3));
    assert_eq!(q.len(), 3);
    assert_eq!(q.try_dequeue(), Some(1));
    assert_eq!(q.try_dequeue(), Some(2));
    assert_eq!(q.try_dequeue(), Some(3));
    assert_eq!(q.try_dequeue(), None);
}

#[test]
fn full_queue_rejects_without_change() {
    let mut q: BoundedQueue<u32> = BoundedQueue::new(2);
    assert!(q.try_enqueue(1));
    assert!(q.try_enqueue(2));
    assert!(q.is_full());
    assert!(!q.try_enqueue(3));
    assert_eq!(q.len(), 2);
    assert_eq!(q.try_dequeue(), Some(1));
    assert!(!q.is_full());
    assert!(q.try_enqueue(4));
    assert_eq!(q.try_dequeue(), Some(2));
    assert_eq!(q.try_dequeue(), Some(4));
}

#[test]
fn dequeue_on_empty_is_none_and_harmless() {
    let mut q: BoundedQueue<u32> = BoundedQueue::new(1);
    assert_eq!(q.try_dequeue(), None);
    assert!(q.try_enqueue(9));
    assert_eq!(q.try_dequeue(), Some(9));
    assert_eq!(q.try_dequeue(), None);
}

#[test]
fn drain_empties_in_order() {
    let mut q: BoundedQueue<u32> = BoundedQueue::new(4);
    assert!(q.try_enqueue(5));
    assert!(q.try_enqueue(6));
    let drained = q.drain();
    assert_eq!(drained, vec![5, 6]);
    assert!(q.is_empty());
    let drained_again = q.drain();
    assert!(drained_again.is_empty());
}

#[test]
fn capacity_one_alternates() {
    let mut q: BoundedQueue<u32> = BoundedQueue::new(1);
    assert!(q.try_enqueue(1));
    assert!(!q.try_enqueue(2));
    assert_eq!(q.try_dequeue(), Some(1));
    assert!(q.try_enqueue(3));
    assert_eq!(q.try_dequeue(), Some(3));
}
