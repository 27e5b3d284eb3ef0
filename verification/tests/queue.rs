use support_bot::queue::{BoundedQueue, QUEUE_CAPACITY};

#[test]
fn a_queue_hands_out_in_the_order_it_took_in() {
    let mut q = BoundedQueue::new(3);
    assert_eq!(q.pop(), None::<i32>);
    assert_eq!(q.push(1), None);
    assert_eq!(q.push(2), None);
    assert_eq!(q.len(), 2);
    assert_eq!(q.pop(), Some(1));
    assert_eq!(q.push(3), None);
    assert_eq!(q.pop(), Some(2));
    assert_eq!(q.pop(), Some(3));
    assert_eq!(q.pop(), None);
}

#[test]
fn a_full_queue_drops_its_oldest() {
    let mut q = BoundedQueue::new(2);
    assert_eq!(q.push("a"), None);
    assert_eq!(q.push("b"), None);
    assert_eq!(q.push("c"), Some("a"));
    assert_eq!(q.push("d"), Some("b"));
    assert_eq!(q.len(), 2);
    assert_eq!(q.pop(), Some("c"));
    assert_eq!(q.pop(), Some("d"));
}

#[test]
fn a_queue_without_room_takes_nothing() {
    let mut q = BoundedQueue::new(0);
    assert_eq!(q.push(7), Some(7));
    assert_eq!(q.len(), 0);
    assert_eq!(q.pop(), None);
}

#[test]
fn the_queue_between_the_tasks_holds_a_hundred() {
    assert_eq!(QUEUE_CAPACITY, 100);
    let mut q = BoundedQueue::new(QUEUE_CAPACITY);
    for i in 0..100 {
        assert_eq!(q.push(i), None);
    }
    assert_eq!(q.push(100), Some(0));
    assert_eq!(q.len(), 100);
}
