//! The engine's queue of timestamped input events.

use vstd::prelude::*;
use crate::input::Input;
use crate::time;

verus! {

/// A message from the game to the engine.
pub enum SystemMessage {
    UpdateRenderFps(u32),
}

/// An input stamped with the nanoseconds since the queue started.
#[derive(Debug)]
pub struct Event {
    pub time: u64,
    pub input: Input,
}

/// A queue for engine driven events.
pub struct EventQueue {
    events: Vec<Event>,
    start_time: std::time::Instant,
}

impl View for EventQueue {
    type V = Seq<Event>;

    closed spec fn view(&self) -> Seq<Event> {
        self.events@
    }
}

impl EventQueue {
    /// The point on the monotonic clock from which the queue stamps its events.
    pub closed spec fn start(&self) -> std::time::Instant {
        self.start_time
    }

    /// An empty queue whose clock starts now.
    pub fn new(capacity: usize) -> (queue: Self)
        ensures
            queue@ == Seq::<Event>::empty(),
    {
        Self { events: Vec::with_capacity(capacity), start_time: time::now() }
    }

    /// Restarts the queue's clock. The events stay as they are.
    pub fn reset_start_time(&mut self)
        ensures
            final(self)@ == old(self)@,
    {
        self.start_time = time::now();
    }

    /// Returns the nanoseconds since initialization (or the last restart of the clock).
    pub fn duration(&self) -> (nanos: u64) {
        time::nanos_since(&self.start_time)
    }

    /// Pushes a new event onto the queue, stamped with the current time (see `push_at`).
    /// The clock keeps its start.
    pub fn push(&mut self, input: Input)
        ensures
            pushed(old(self)@, final(self)@, input),
            final(self).start() == old(self).start(),
    {
        let time = self.duration();
        let ghost before = self@;
        self.push_at(input, time);
        assert(self@.drop_last() =~= before);
    }

    /// Pushes a new event onto the queue, stamped `time` nanoseconds after the clock's
    /// start. The clock keeps its start.
    pub fn push_at(&mut self, input: Input, time: u64)
        ensures
            final(self)@ == old(self)@.push(Event { time, input }),
            final(self).start() == old(self).start(),
    {
        self.events.push(Event { time, input });
    }

    /// Pops the top item, the most recently pushed event, off the queue.
    pub fn pop(&mut self) -> (event: Option<Event>)
        ensures
            popped(old(self)@, event, final(self)@),
            final(self).start() == old(self).start(),
    {
        self.events.pop()
    }

    /// Peeks the top item on the queue: the event the next `pop` takes off.
    pub fn peek(&self) -> (event: Option<&Event>)
        ensures
            self@.len() == 0 ==> event is None,
            self@.len() > 0 ==> event == Some(&self@.last()),
    {
        if self.events.is_empty() {
            return None;
        }
        return Some(&self.events[self.events.len() - 1]);
    }

    /// Returns whether the event queue is empty.
    pub fn is_empty(&self) -> (empty: bool)
        ensures
            empty <==> self@.len() == 0,
    {
        self.events.is_empty()
    }

    /// Takes every event out of the queue, most recent first.
    pub fn drain_newest_first(&mut self) -> (events: Vec<Event>)
        ensures
            final(self)@ == Seq::<Event>::empty(),
            events@ == old(self)@.reverse(),
            final(self).start() == old(self).start(),
    {
        let mut events: Vec<Event> = Vec::new();
        let ghost original = self.events@;
        let ghost start = self.start_time;
        while !self.events.is_empty()
            invariant
                original == self.events@ + events@.reverse(),
                self.start_time == start,
            decreases self.events@.len(),
        {
            let ghost before = self.events@;
            let event = self.events.pop().unwrap();
            events.push(event);
            proof {
                assert(events@.reverse() == seq![event] + events@.drop_last().reverse());
                assert(before == self.events@.push(event));
            }
        }
        assert(original =~= events@.reverse());
        events
    }
}

/// `after` is `before` with one more event on top, carrying `input`.
pub open spec fn pushed(before: Seq<Event>, after: Seq<Event>, input: Input) -> bool {
    &&& after.len() == before.len() + 1
    &&& after.drop_last() == before
    &&& after.last().input == input
}

/// Popping `before` gave `event` and left `after`: the top event comes off, if there is one.
pub open spec fn popped(before: Seq<Event>, event: Option<Event>, after: Seq<Event>) -> bool {
    if before.len() == 0 {
        event is None && after == before
    } else {
        event == Some(before.last()) && after == before.drop_last()
    }
}

/// Peeking shows the event that popping then takes off.
pub proof fn lemma_peek_shows_what_pop_takes(q: Seq<Event>, peeked: Option<Event>, event: Option<Event>, after: Seq<Event>)
    requires
        q.len() > 0 ==> peeked == Some(q.last()),
        q.len() == 0 ==> peeked is None,
        popped(q, event, after),
    ensures
        peeked == event,
{
}

/// A pop right after a push gives back the pushed input and leaves the queue as it was
/// before the push.
pub proof fn lemma_pop_undoes_push(
    q0: Seq<Event>,
    q1: Seq<Event>,
    q2: Seq<Event>,
    input: Input,
    event: Option<Event>,
)
    requires
        pushed(q0, q1, input),
        popped(q1, event, q2),
    ensures
        event is Some,
        event.unwrap().input == input,
        q2 == q0,
{
}

} // verus!
