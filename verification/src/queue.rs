//! The queue of events that were translated and not yet read.
//!
//! Producers append; the single consumer takes everything at once. Nothing
//! bounds the queue but memory.

use vstd::prelude::*;
use crate::event::WindowEvent;

verus! {

/// The events pushed since the last drain, oldest first.
#[derive(Debug)]
pub struct PendingQueue {
    events: Vec<WindowEvent>,
}

impl View for PendingQueue {
    type V = Seq<WindowEvent>;

    closed spec fn view(&self) -> Seq<WindowEvent> {
        self.events@
    }
}

impl PendingQueue {
    /// An empty queue.
    pub fn new() -> (queue: PendingQueue)
        ensures
            queue@ == Seq::<WindowEvent>::empty(),
    {
        PendingQueue { events: Vec::new() }
    }

    /// Appends `event` behind everything that is already queued.
    pub fn push(&mut self, event: WindowEvent)
        ensures
            final(self)@ == old(self)@.push(event),
    {
        self.events.push(event);
    }

    /// Hands out every queued event, oldest first, and leaves the queue
    /// empty.
    pub fn drain_all(&mut self) -> (drained: Vec<WindowEvent>)
        ensures
            drained@ == old(self)@,
            final(self)@ == Seq::<WindowEvent>::empty(),
    {
        let mut drained: Vec<WindowEvent> = Vec::new();
        std::mem::swap(&mut self.events, &mut drained);
        drained
    }

    /// How many events are queued.
    pub fn len(&self) -> (n: usize)
        ensures
            n == self@.len(),
    {
        self.events.len()
    }

    /// Whether no event is queued.
    pub fn is_empty(&self) -> (r: bool)
        ensures
            r == (self@.len() == 0),
    {
        self.events.len() == 0
    }
}

} // verus!
