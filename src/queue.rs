//! The ordered queue that carries channel-voice events from the input device to the session.
use crate::midi::{parse_live, ChannelEvent, Incoming};
use std::collections::VecDeque;
use vstd::prelude::*;

verus! {

/// An unbounded first-in, first-out queue of channel-voice events.
pub struct EventQueue {
    events: VecDeque<ChannelEvent>,
}

impl View for EventQueue {
    type V = Seq<ChannelEvent>;

    /// The queued events, oldest first.
    closed spec fn view(&self) -> Seq<ChannelEvent> {
        self.events@
    }
}

/// The queue that results from enqueueing `s` in order onto `q`.
pub open spec fn enqueue_all(q: Seq<ChannelEvent>, s: Seq<ChannelEvent>) -> Seq<ChannelEvent>
    decreases s.len(),
{
    if s.len() == 0 {
        q
    } else {
        enqueue_all(q.push(s[0]), s.drop_first())
    }
}

/// The events that `n` dequeues from `q` return, in the order they are returned.
pub open spec fn dequeue_order(q: Seq<ChannelEvent>, n: nat) -> Seq<ChannelEvent>
    decreases n,
{
    if n == 0 || q.len() == 0 {
        Seq::empty()
    } else {
        seq![q[0]] + dequeue_order(q.drop_first(), (n - 1) as nat)
    }
}

proof fn lemma_enqueue_all_appends(q: Seq<ChannelEvent>, s: Seq<ChannelEvent>)
    ensures
        enqueue_all(q, s) == q + s,
    decreases s.len(),
{
    if s.len() > 0 {
        lemma_enqueue_all_appends(q.push(s[0]), s.drop_first());
        assert(q.push(s[0]) + s.drop_first() =~= q + s);
    } else {
        assert(q + s =~= q);
    }
}

proof fn lemma_dequeue_all(q: Seq<ChannelEvent>)
    ensures
        dequeue_order(q, q.len()) == q,
    decreases q.len(),
{
    if q.len() > 0 {
        lemma_dequeue_all(q.drop_first());
        assert(seq![q[0]] + q.drop_first() =~= q);
    }
}

/// Events enqueued in order come out in that same order, after every event that was already
/// waiting: nothing is dropped, duplicated or reordered.
pub proof fn lemma_queue_keeps_order(q: Seq<ChannelEvent>, s: Seq<ChannelEvent>)
    ensures
        dequeue_order(enqueue_all(q, s), q.len() + s.len()) == q + s,
        dequeue_order(enqueue_all(Seq::empty(), s), s.len()) == s,
{
    lemma_enqueue_all_appends(q, s);
    lemma_dequeue_all(q + s);
    lemma_enqueue_all_appends(Seq::empty(), s);
    assert(Seq::<ChannelEvent>::empty() + s =~= s);
    lemma_dequeue_all(s);
}

/// Draining a queue that is already empty leaves it as it was and discards nothing.
pub proof fn lemma_drain_empty_is_noop(q: Seq<ChannelEvent>)
    requires
        q.len() == 0,
    ensures
        drained(q) == q,
        q.len() == 0,
{
    assert(drained(q) =~= q);
}

/// The contents of a queue after it is drained.
pub open spec fn drained(q: Seq<ChannelEvent>) -> Seq<ChannelEvent> {
    Seq::empty()
}

impl EventQueue {
    /// An empty queue.
    pub fn new() -> (r: EventQueue)
        ensures
            r@ == Seq::<ChannelEvent>::empty(),
    {
        EventQueue { events: VecDeque::new() }
    }

    /// The number of queued events.
    pub fn len(&self) -> (r: usize)
        ensures
            r == self@.len(),
    {
        self.events.len()
    }

    /// Whether no event is queued.
    pub fn is_empty(&self) -> (r: bool)
        ensures
            r == (self@.len() == 0),
    {
        self.events.len() == 0
    }

    /// Adds `e` behind every queued event.
    pub fn push(&mut self, e: ChannelEvent)
        ensures
            final(self)@ == old(self)@.push(e),
    {
        self.events.push_back(e);
    }

    /// Removes and returns the oldest queued event, or `None` when nothing is queued.
    pub fn pop(&mut self) -> (r: Option<ChannelEvent>)
        ensures
            old(self)@.len() == 0 ==> r is None && final(self)@ == old(self)@,
            old(self)@.len() > 0 ==> r == Some(old(self)@[0]) && final(self)@ == old(
                self,
            )@.drop_first(),
    {
        self.events.pop_front()
    }

    /// Discards every queued event without blocking, and returns how many there were.
    pub fn drain(&mut self) -> (r: usize)
        ensures
            final(self)@ == drained(old(self)@),
            r == old(self)@.len(),
    {
        let n = self.events.len();
        self.events.clear();
        n
    }

    /// Classifies one raw buffer from the input device and queues it if it is a
    /// channel-voice event; system messages and malformed buffers are not queued.
    pub fn receive(&mut self, bytes: &[u8]) -> (r: Incoming)
        ensures
            r is Voice ==> final(self)@ == old(self)@.push(r->Voice_0),
            !(r is Voice) ==> final(self)@ == old(self)@,
            bytes@.len() == 0 ==> r == Incoming::Malformed,
            bytes@.len() > 0 && crate::midi::is_note_status(bytes@[0]) ==> r == match crate::midi::note_event_of(bytes@) {
                Some(e) => Incoming::Voice(e),
                None => Incoming::Malformed,
            },
            bytes@.len() > 0 && bytes@[0] >= 0xF8 ==> r == Incoming::System,
            r is Voice ==> bytes@.len() > 0 && 0x80 <= bytes@[0] <= 0xEF && r->Voice_0.channel
                == bytes@[0] % 16,
    {
        let r = parse_live(bytes);
        if let Incoming::Voice(e) = r {
            self.events.push_back(e);
        }
        r
    }
}

} // verus!
