use std::collections::VecDeque;
use vstd::prelude::*;

verus! {

/// A raw input event as the terminal driver delivers it.
#[derive(Copy, Clone, PartialEq, Eq, Structural, Hash, Debug)]
pub enum Event {
    /// A key event: modifier flags, special code and codepoint.
    KeyEventRaw(u8, u16, u32),
    /// The terminal was resized to the given width and height.
    ResizeEvent(i32, i32),
    /// A mouse event: button and position.
    MouseEvent(u16, i32, i32),
}

/// Whether an event is a raw key event.
pub open spec fn is_raw_key(e: Event) -> bool {
    e is KeyEventRaw
}

/// The codepoint that a raw key event carries (zero for other events).
pub open spec fn codepoint_of(e: Event) -> u32 {
    match e {
        Event::KeyEventRaw(_, _, ch) => ch,
        _ => 0,
    }
}

/// A source of raw events with a non-blocking peek: the events that have
/// already arrived wait in order, and a peek hands out the first of them or
/// reports at once that none is there.
pub struct EventSource {
    queue: VecDeque<Event>,
}

impl View for EventSource {
    type V = Seq<Event>;

    /// The events that have arrived and not yet been taken, oldest first.
    closed spec fn view(&self) -> Seq<Event> {
        self.queue@
    }
}

impl EventSource {
    /// A source with no event waiting.
    pub fn new() -> (r: EventSource)
        ensures
            r@ == Seq::<Event>::empty(),
    {
        EventSource { queue: VecDeque::new() }
    }

    /// A source on which the given events wait, in the given order.
    pub fn from_events(events: Vec<Event>) -> (r: EventSource)
        ensures
            r@ == events@,
    {
        let mut queue: VecDeque<Event> = VecDeque::new();
        let mut i: usize = 0;
        while i < events.len()
            invariant
                i <= events@.len(),
                queue@ == events@.subrange(0, i as int),
            decreases events@.len() - i,
        {
            queue.push_back(events[i]);
            i = i + 1;
        }
        assert(queue@ == events@.subrange(0, events@.len() as int));
        assert(events@.subrange(0, events@.len() as int) =~= events@);
        EventSource { queue }
    }

    /// Records that an event has arrived.
    pub fn push(&mut self, e: Event)
        ensures
            final(self)@ == old(self)@.push(e),
    {
        self.queue.push_back(e);
    }

    /// How many events are waiting.
    pub fn pending(&self) -> (r: usize)
        ensures
            r == self@.len(),
    {
        self.queue.len()
    }

    /// Takes the first waiting event without blocking, or returns `None` at
    /// once where no event is waiting.
    pub fn peek_event(&mut self) -> (r: Option<Event>)
        ensures
            old(self)@.len() == 0 ==> r is None && final(self)@ == old(self)@,
            old(self)@.len() > 0 ==> r == Some(old(self)@[0]) && final(self)@ == old(
                self,
            )@.drop_first(),
    {
        let r = self.queue.pop_front();
        proof {
            if old(self)@.len() > 0 {
                assert(self@ =~= old(self)@.drop_first());
            }
        }
        r
    }
}

} // verus!
