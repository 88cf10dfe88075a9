//! Delivery plumbing between the pollers and their consumers.
//!
//! A `BroadcastBuffer` models one subscriber's view of a broadcast channel:
//! a bounded buffer where publishing into a full buffer drops the oldest
//! unread value (lag is acceptable, not fatal). A `FanoutQueue` models the
//! unbounded queue the fee poller publishes into: nothing is ever dropped,
//! so consumers must drain it.

use vstd::prelude::*;

verus! {

/// Bounded buffer with oldest-drop overflow: the channel keeps at most
/// `capacity` unread values, and a publish that would exceed that evicts
/// the oldest unread value first.
pub struct BroadcastBuffer<T> {
    pub items: Vec<T>,
    pub capacity: usize,
}

impl<T> BroadcastBuffer<T> {
    /// Unread values, oldest first.
    pub open spec fn view(&self) -> Seq<T> {
        self.items@
    }

    /// The buffer never holds more than its capacity, and the capacity is
    /// at least one so a publish is never itself dropped.
    pub open spec fn well_formed(&self) -> bool {
        self.items@.len() <= self.capacity && self.capacity >= 1
    }

    /// An empty buffer of the given capacity.
    pub fn new(capacity: usize) -> (b: Self)
        requires
            capacity >= 1,
        ensures
            b.well_formed(),
            b.view() == Seq::<T>::empty(),
            b.capacity == capacity,
    {
        BroadcastBuffer { items: Vec::new(), capacity }
    }

    /// Publish a value: append it, evicting the oldest unread value first
    /// when the buffer is full. Publishing never fails and never blocks.
    pub fn publish(&mut self, v: T)
        requires
            old(self).well_formed(),
        ensures
            final(self).well_formed(),
            final(self).capacity == old(self).capacity,
            final(self).view() == (if old(self).view().len() < old(self).capacity {
                old(self).view().push(v)
            } else {
                old(self).view().skip(1).push(v)
            }),
    {
        if self.items.len() >= self.capacity {
            self.items.remove(0);
        }
        self.items.push(v);
    }

    /// Receive the oldest unread value, or nothing when the buffer is
    /// empty.
    pub fn recv(&mut self) -> (r: Option<T>)
        requires
            old(self).well_formed(),
        ensures
            final(self).well_formed(),
            final(self).capacity == old(self).capacity,
            old(self).view().len() == 0 ==> r is None && final(self).view() == old(self).view(),
            old(self).view().len() > 0 ==> r == Option::Some(old(self).view()[0])
                && final(self).view() == old(self).view().skip(1),
    {
        if self.items.len() == 0 {
            Option::None
        } else {
            let v = self.items.remove(0);
            Option::Some(v)
        }
    }

    /// How many unread values the buffer holds.
    pub fn len(&self) -> (n: usize)
        ensures
            n == self.view().len(),
    {
        self.items.len()
    }
}

/// Unbounded multi-consumer queue: every published value stays until a
/// consumer drains it; nothing is ever dropped.
pub struct FanoutQueue<T> {
    pub items: Vec<T>,
}

impl<T> FanoutQueue<T> {
    /// Queued values, oldest first.
    pub open spec fn view(&self) -> Seq<T> {
        self.items@
    }

    /// An empty queue.
    pub fn new() -> (q: Self)
        ensures
            q.view() == Seq::<T>::empty(),
    {
        FanoutQueue { items: Vec::new() }
    }

    /// Publish a value onto the queue. Never fails, never drops.
    pub fn push(&mut self, v: T)
        ensures
            final(self).view() == old(self).view().push(v),
    {
        self.items.push(v);
    }

    /// Drain the oldest value, or nothing when the queue is empty.
    pub fn pop_front(&mut self) -> (r: Option<T>)
        ensures
            old(self).view().len() == 0 ==> r is None && final(self).view() == old(self).view(),
            old(self).view().len() > 0 ==> r == Option::Some(old(self).view()[0])
                && final(self).view() == old(self).view().skip(1),
    {
        if self.items.len() == 0 {
            Option::None
        } else {
            let v = self.items.remove(0);
            Option::Some(v)
        }
    }

    /// How many values are queued.
    pub fn len(&self) -> (n: usize)
        ensures
            n == self.view().len(),
    {
        self.items.len()
    }
}

} // verus!
