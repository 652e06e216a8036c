//! The editor's log pane keeps the last few log events that arrived.
use vstd::prelude::*;

verus! {

/// How many log events the pane keeps.
pub const LOG_CAPACITY: usize = 5;

/// The latest log events, oldest first, at most `LOG_CAPACITY` of them.
pub struct LogBuffer<E> {
    events: Vec<E>,
}

/// The events kept after `e` arrives: it is appended, and the oldest one
/// leaves when that goes past the capacity.
pub open spec fn pushed<E>(events: Seq<E>, e: E) -> Seq<E> {
    if events.len() + 1 > LOG_CAPACITY {
        events.push(e).drop_first()
    } else {
        events.push(e)
    }
}

impl<E> View for LogBuffer<E> {
    type V = Seq<E>;

    closed spec fn view(&self) -> Seq<E> {
        self.events@
    }
}

impl<E> LogBuffer<E> {
    /// The buffer holds no more than `LOG_CAPACITY` events.
    pub open spec fn wf(&self) -> bool {
        self@.len() <= LOG_CAPACITY
    }

    /// An empty buffer.
    pub fn new() -> (r: LogBuffer<E>)
        ensures
            r@ == Seq::<E>::empty(),
            r.wf(),
    {
        LogBuffer { events: Vec::new() }
    }

    /// Records an event that arrived.
    pub fn push(&mut self, e: E)
        requires
            old(self).wf(),
        ensures
            final(self)@ == pushed(old(self)@, e),
            final(self).wf(),
    {
        self.events.push(e);
        if self.events.len() > LOG_CAPACITY {
            self.events.remove(0);
        }
    }

    /// Drops every event.
    pub fn clear(&mut self)
        ensures
            final(self)@ == Seq::<E>::empty(),
            final(self).wf(),
    {
        self.events.clear();
    }

    /// The events kept, oldest first.
    pub fn events(&self) -> (r: &Vec<E>)
        ensures
            r@ == self@,
    {
        &self.events
    }

    /// How many events are kept.
    pub fn len(&self) -> (r: usize)
        ensures
            r == self@.len(),
    {
        self.events.len()
    }
}

impl<E> Default for LogBuffer<E> {
    fn default() -> (r: LogBuffer<E>)
        ensures
            r@ == Seq::<E>::empty(),
    {
        LogBuffer::new()
    }
}

/// Once full, the buffer keeps exactly the last `LOG_CAPACITY` events: the
/// newest one last, and every other one moved one place towards the front.
pub proof fn lemma_full_buffer_slides<E>(events: Seq<E>, e: E)
    requires
        events.len() == LOG_CAPACITY,
    ensures
        pushed(events, e).len() == LOG_CAPACITY,
        pushed(events, e).last() == e,
        forall|i: int|
            0 <= i < LOG_CAPACITY - 1 ==> #[trigger] pushed(events, e)[i] == events[i + 1],
{
}

} // verus!
