//! The application event bus: a single-producer/consumer queue of
//! [`UserEvent`]s whose delivery order is the order of publication.

use vstd::prelude::*;
use crate::child_window::UserEvent;

verus! {

/// An ordering-preserving FIFO queue of application events.
///
/// Widgets and layouts publish events here; the window controller (or the
/// embedding application) drains it and dispatches each event exactly once.
#[derive(Debug)]
pub struct EventQueue {
    items: Vec<UserEvent>,
}

impl View for EventQueue {
    type V = Seq<UserEvent>;

    closed spec fn view(&self) -> Seq<UserEvent> {
        self.items@
    }
}

impl EventQueue {
    /// A new, empty bus.
    pub fn new() -> (q: EventQueue)
        ensures
            q@ == Seq::<UserEvent>::empty(),
    {
        EventQueue { items: Vec::new() }
    }

    pub fn len(&self) -> (n: usize)
        ensures
            n == self@.len(),
    {
        self.items.len()
    }

    /// Appends one event at the back of the queue; everything already queued
    /// keeps its place.
    pub fn publish(&mut self, event: UserEvent)
        ensures
            final(self)@ == old(self)@.push(event),
    {
        self.items.push(event);
    }

    /// Removes and returns the oldest event, or `None` on an empty queue.
    pub fn pop_front(&mut self) -> (r: Option<UserEvent>)
        ensures
            old(self)@.len() == 0 ==> r is None && final(self)@ == old(self)@,
            old(self)@.len() > 0 ==> r == Some(old(self)@[0]) && final(self)@ == old(
                self,
            )@.skip(1),
    {
        if self.items.len() == 0 {
            None
        } else {
            let e = self.items.remove(0);
            proof {
                assert(self@ =~= old(self)@.skip(1));
            }
            Some(e)
        }
    }

    /// Hands out every queued event, oldest first, leaving the queue empty.
    pub fn take_all(&mut self) -> (r: Vec<UserEvent>)
        ensures
            r@ == old(self)@,
            final(self)@ == Seq::<UserEvent>::empty(),
    {
        let mut taken = Vec::new();
        std::mem::swap(&mut taken, &mut self.items);
        proof {
            assert(self@ =~= Seq::<UserEvent>::empty());
        }
        taken
    }
}

} // verus!
