//! Lifecycle events of drawn boxes, and the queue that holds them back one tick.

use vstd::prelude::*;

verus! {

/// A step in the drawing lifecycle of a box.
#[derive(Clone, Copy, Debug, PartialEq, Eq, Structural)]
pub enum DrawShapeEvent {
    /// A new box was drawn; it holds the newly created entity.
    Spawned(u64),
    /// An existing box is being drawn again.
    Redrawing(u64),
    /// The drag that drew the box ended.
    Finished(u64),
}

impl DrawShapeEvent {
    /// The entity the event is about.
    pub open spec fn subject(self) -> u64 {
        match self {
            DrawShapeEvent::Spawned(e) => e,
            DrawShapeEvent::Redrawing(e) => e,
            DrawShapeEvent::Finished(e) => e,
        }
    }

    /// The entity the event is about.
    pub fn entity(&self) -> (r: u64)
        ensures
            r == self.subject(),
    {
        match self {
            DrawShapeEvent::Spawned(e) => *e,
            DrawShapeEvent::Redrawing(e) => *e,
            DrawShapeEvent::Finished(e) => *e,
        }
    }
}

/// Events enqueued during one tick, delivered in the order they were enqueued
/// at the start of the next.
///
/// The delay lets the scene create and update the entities an event names
/// before any observer reads it.
pub struct EventQueue {
    pending: Vec<DrawShapeEvent>,
}

impl View for EventQueue {
    type V = Seq<DrawShapeEvent>;

    closed spec fn view(&self) -> Seq<DrawShapeEvent> {
        self.pending@
    }
}

impl EventQueue {
    /// An empty queue.
    pub fn new() -> (r: EventQueue)
        ensures
            r@ == Seq::<DrawShapeEvent>::empty(),
    {
        EventQueue { pending: Vec::new() }
    }

    /// The number of events waiting for the next tick.
    pub fn len(&self) -> (r: usize)
        ensures
            r == self@.len(),
    {
        self.pending.len()
    }

    /// Holds `ev` back until the next flush.
    pub fn enqueue(&mut self, ev: DrawShapeEvent)
        ensures
            final(self)@ == old(self)@.push(ev),
    {
        self.pending.push(ev);
    }

    /// Hands out every waiting event, first enqueued first, and starts the
    /// tick's queue empty.
    pub fn flush(&mut self) -> (r: Vec<DrawShapeEvent>)
        ensures
            r@ == old(self)@,
            final(self)@ == Seq::<DrawShapeEvent>::empty(),
    {
        let mut out: Vec<DrawShapeEvent> = Vec::new();
        std::mem::swap(&mut out, &mut self.pending);
        out
    }
}

} // verus!
