//! The bounded, ordered event channel between device readers and the output
//! writer, with its differentiated backpressure policy.
//!
//! This type is the channel's functional model: a FIFO queue of bounded
//! capacity whose submit operation never discards a must-deliver event.  A
//! full channel answers a must-deliver submission with `WouldBlock` — the
//! producer waits and resubmits, exactly as a blocking send does — while a
//! best-effort submission is shed.

use vstd::prelude::*;
use crate::policy::{Event, SendMode};

verus! {

/// The channel capacity the daemon runs with: large enough to absorb short
/// bursts without meaningfully increasing memory.
pub const EVENT_BUFFER_SIZE: usize = 8192;

/// The outcome of one submission attempt.
#[derive(Clone, Copy, PartialEq, Eq, Structural, Debug)]
pub enum SubmitOutcome {
    /// The event was appended to the queue.
    Enqueued,
    /// The channel is full and the event must be delivered: the producer
    /// has to wait for room and submit again.  The event is not lost.
    WouldBlock,
    /// The channel is full and the event was best-effort: it is discarded.
    Dropped,
}

/// A bounded FIFO queue of events: multi-producer/single-consumer in the
/// process, one submission at a time in the model.
pub struct EventChannel {
    events: Vec<Event>,
    capacity: usize,
}

impl EventChannel {
    /// The pending events, oldest first.
    pub closed spec fn view(&self) -> Seq<Event> {
        self.events@
    }

    /// The capacity the channel was created with.
    pub closed spec fn spec_capacity(&self) -> nat {
        self.capacity as nat
    }

    /// The queue never holds more than its capacity.
    pub open spec fn wf(&self) -> bool {
        self.view().len() <= self.spec_capacity()
    }

    /// An empty channel of the given capacity.
    pub fn new(capacity: usize) -> (c: Self)
        requires
            capacity > 0,
        ensures
            c.wf(),
            c.view() == Seq::<Event>::empty(),
            c.spec_capacity() == capacity,
    {
        EventChannel { events: Vec::new(), capacity }
    }

    /// How many events are pending.
    pub fn len(&self) -> (n: usize)
        ensures
            n == self.view().len(),
    {
        self.events.len()
    }

    /// Whether the channel is at capacity.
    pub fn is_full(&self) -> (r: bool)
        ensures
            r == (self.view().len() == self.spec_capacity()),
    {
        self.events.len() == self.capacity
    }

    /// Submits one event under the channel policy.  With room, the event is
    /// appended whatever its mode.  At capacity, a must-deliver event is
    /// never dropped — the producer is told to wait — and a best-effort
    /// event is discarded; either way the queue is unchanged.
    pub fn submit(&mut self, ev: Event, mode: SendMode) -> (o: SubmitOutcome)
        requires
            old(self).wf(),
        ensures
            final(self).wf(),
            final(self).spec_capacity() == old(self).spec_capacity(),
            old(self).view().len() < old(self).spec_capacity() ==> {
                &&& o == SubmitOutcome::Enqueued
                &&& final(self).view() == old(self).view().push(ev)
            },
            old(self).view().len() == old(self).spec_capacity() ==> {
                &&& final(self).view() == old(self).view()
                &&& (mode == SendMode::MustDeliver ==> o == SubmitOutcome::WouldBlock)
                &&& (mode == SendMode::BestEffort ==> o == SubmitOutcome::Dropped)
            },
            mode == SendMode::MustDeliver ==> o != SubmitOutcome::Dropped,
    {
        if self.events.len() < self.capacity {
            self.events.push(ev);
            SubmitOutcome::Enqueued
        } else {
            match mode {
                SendMode::MustDeliver => SubmitOutcome::WouldBlock,
                SendMode::BestEffort => SubmitOutcome::Dropped,
            }
        }
    }

    /// Takes the oldest pending event, if any: the channel is FIFO.
    pub fn take(&mut self) -> (r: Option<Event>)
        requires
            old(self).wf(),
        ensures
            final(self).wf(),
            final(self).spec_capacity() == old(self).spec_capacity(),
            old(self).view().len() == 0 ==> r is None && final(self).view() == old(self).view(),
            old(self).view().len() > 0 ==> {
                &&& r == Some(old(self).view()[0])
                &&& final(self).view() == old(self).view().drop_first()
            },
    {
        if self.events.len() == 0 {
            None
        } else {
            let ev = self.events.remove(0);
            proof {
                assert(self.view() =~= old(self).view().drop_first());
            }
            Some(ev)
        }
    }
}

} // verus!
