//! The event/signal bus.
//!
//! Combat outcomes reach presentation collaborators (audio, UI) only
//! through this queue: producers append, and each consumer drains the
//! whole queue once per update cycle, so every event is delivered at
//! most once and never outlives the cycle that produced it.

use vstd::prelude::*;

use crate::combat::FightEvent;

verus! {

/// Ordered single-cycle queue of fight events.
pub struct EventQueue {
    events: Vec<FightEvent>,
}

impl View for EventQueue {
    type V = Seq<FightEvent>;

    closed spec fn view(&self) -> Seq<FightEvent> {
        self.events@
    }
}

impl EventQueue {
    pub fn new() -> (q: EventQueue)
        ensures
            q@ == Seq::<FightEvent>::empty(),
    {
        EventQueue { events: Vec::new() }
    }

    /// Append one event at the back of the queue.
    pub fn send(&mut self, e: FightEvent)
        ensures
            final(self)@ == old(self)@.push(e),
    {
        self.events.push(e);
    }

    pub fn len(&self) -> (n: usize)
        ensures
            n == self@.len(),
    {
        self.events.len()
    }

    pub fn is_empty(&self) -> (r: bool)
        ensures
            r == (self@.len() == 0),
    {
        self.events.len() == 0
    }

    /// Hand the whole queue, in order, to a consumer and leave it empty:
    /// at-most-once, same-cycle delivery.
    pub fn drain(&mut self) -> (drained: Vec<FightEvent>)
        ensures
            drained@ == old(self)@,
            final(self)@ == Seq::<FightEvent>::empty(),
    {
        let mut drained: Vec<FightEvent> = Vec::new();
        core::mem::swap(&mut self.events, &mut drained);
        drained
    }
}

} // verus!
