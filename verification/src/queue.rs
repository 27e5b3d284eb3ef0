//! The queue between the task that takes events in and the task that
//! answers them. It is bounded, and it favours the new: an event that finds
//! the queue full pushes the oldest one out.

use vstd::prelude::*;
use std::collections::VecDeque;

verus! {

/// How many events wait at most between ingestion and response.
pub const QUEUE_CAPACITY: usize = 100;

/// A bounded queue that drops its oldest item on overflow.
pub struct BoundedQueue<T> {
    items: VecDeque<T>,
    capacity: usize,
}

impl<T> BoundedQueue<T> {
    /// The items that wait, oldest first.
    pub closed spec fn items(self) -> Seq<T> {
        self.items@
    }

    /// How many items may wait.
    pub closed spec fn capacity(self) -> nat {
        self.capacity as nat
    }

    /// The queue holds no more than it may.
    pub open spec fn wf(self) -> bool {
        self.items().len() <= self.capacity()
    }

    /// An empty queue for at most `capacity` items.
    pub fn new(capacity: usize) -> (q: Self)
        ensures
            q.wf(),
            q.capacity() == capacity,
            q.items().len() == 0,
    {
        BoundedQueue { items: VecDeque::new(), capacity }
    }

    /// How many items wait.
    pub fn len(&self) -> (n: usize)
        ensures
            n == self.items().len(),
    {
        self.items.len()
    }

    /// The items after `item` was put into a queue that holds `before` and
    /// may hold `capacity`, and the item that left.
    pub open spec fn after_push(before: Seq<T>, capacity: nat, item: T) -> (Seq<T>, Option<T>) {
        if capacity == 0 {
            (before, Some(item))
        } else if before.len() < capacity {
            (before.push(item), None)
        } else {
            (before.drop_first().push(item), Some(before[0]))
        }
    }

    /// The items after the oldest was taken out of `before`, and the item
    /// taken.
    pub open spec fn after_pop(before: Seq<T>) -> (Seq<T>, Option<T>) {
        if before.len() == 0 {
            (before, None)
        } else {
            (before.drop_first(), Some(before[0]))
        }
    }

    /// Puts `item` behind the items that wait. Where the queue is full the
    /// oldest item leaves to make room and is handed back; a queue that may
    /// hold nothing hands `item` itself back.
    pub fn push(&mut self, item: T) -> (dropped: Option<T>)
        requires
            old(self).wf(),
        ensures
            final(self).wf(),
            final(self).capacity() == old(self).capacity(),
            (final(self).items(), dropped) == Self::after_push(
                old(self).items(),
                old(self).capacity(),
                item,
            ),
    {
        if self.capacity == 0 {
            return Some(item);
        }
        let dropped = if self.items.len() >= self.capacity {
            let oldest = self.items.pop_front();
            assert(self.items@ =~= old(self).items@.drop_first());
            oldest
        } else {
            None
        };
        self.items.push_back(item);
        dropped
    }

    /// Takes the oldest item out.
    pub fn pop(&mut self) -> (item: Option<T>)
        requires
            old(self).wf(),
        ensures
            final(self).wf(),
            final(self).capacity() == old(self).capacity(),
            (final(self).items(), item) == Self::after_pop(old(self).items()),
    {
        let item = self.items.pop_front();
        assert(old(self).items@.len() > 0 ==> self.items@ =~= old(self).items@.drop_first());
        item
    }
}

} // verus!
