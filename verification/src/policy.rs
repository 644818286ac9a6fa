//! Per-event processing and the channel submission policy.
//!
//! Every event read from a device becomes an output event plus a submission
//! mode.  Press, release and synchronization events must reach the output
//! device and are submitted blocking; autorepeat and the remaining event
//! classes are best-effort and may be shed when the channel is full.

use vstd::prelude::*;
use crate::keys::{EV_KEY, EV_SYN, VALUE_AUTOREPEAT};
use crate::modifier::{spec_any_held, spec_output_code, spec_update, ModifierState};

verus! {

/// An input or output event: class, key (or framing) code, and value.
#[derive(Clone, Copy, PartialEq, Eq, Structural, Debug)]
pub struct Event {
    pub class: u16,
    pub code: u16,
    pub value: i32,
}

/// How an event is submitted to the channel.  `MustDeliver` blocks until
/// there is room; `BestEffort` is dropped silently when the channel is full.
#[derive(Clone, Copy, PartialEq, Eq, Structural, Debug)]
pub enum SendMode {
    MustDeliver,
    BestEffort,
}

/// The event-class-to-mode table.  Key presses and releases must be
/// delivered (losing one leaves a key stuck); key autorepeats are the
/// designated pressure-relief valve.  Synchronization events frame event
/// batches and must be delivered; every other class is best-effort.
pub open spec fn spec_send_mode(class: u16, value: i32) -> SendMode {
    if class == EV_KEY {
        if value == VALUE_AUTOREPEAT {
            SendMode::BestEffort
        } else {
            SendMode::MustDeliver
        }
    } else if class == EV_SYN {
        SendMode::MustDeliver
    } else {
        SendMode::BestEffort
    }
}

/// Picks the submission mode for an event of the given class and value.
pub fn submission_mode(class: u16, value: i32) -> (m: SendMode)
    ensures
        m == spec_send_mode(class, value),
{
    if class == EV_KEY {
        if value == VALUE_AUTOREPEAT {
            SendMode::BestEffort
        } else {
            SendMode::MustDeliver
        }
    } else if class == EV_SYN {
        SendMode::MustDeliver
    } else {
        SendMode::BestEffort
    }
}

/// What a processed event carries to the channel.
pub open spec fn spec_process(s: ModifierState, ev: Event) -> (ModifierState, Event, SendMode) {
    if ev.class == EV_KEY {
        let s2 = spec_update(s, ev.code, ev.value);
        let out = Event { class: ev.class, code: spec_output_code(s2, ev.code), value: ev.value };
        (s2, out, spec_send_mode(ev.class, ev.value))
    } else {
        (s, ev, spec_send_mode(ev.class, ev.value))
    }
}

/// Processes one device event: updates the modifier state on modifier keys,
/// computes the delivered code (passthrough while a modifier is held, the
/// remap table otherwise), and picks the submission mode.  Non-key events
/// pass through unchanged under the class policy.
pub fn process_event(mods: &mut ModifierState, ev: Event) -> (r: (Event, SendMode))
    ensures
        (*final(mods), r.0, r.1) == spec_process(*old(mods), ev),
{
    if ev.class == EV_KEY {
        mods.update(ev.code, ev.value);
        let held = mods.any_held();
        let out_code: u16 = if held {
            ev.code
        } else {
            crate::remap::remap_key_code(ev.code)
        };
        let out = Event { class: ev.class, code: out_code, value: ev.value };
        (out, submission_mode(ev.class, ev.value))
    } else {
        (ev, submission_mode(ev.class, ev.value))
    }
}

/// Passthrough invariant at the event level: if any modifier is held once
/// the event has been accounted for, the delivered code equals the input
/// code.
pub proof fn lemma_process_passthrough(s: ModifierState, ev: Event)
    requires
        ev.class == EV_KEY,
        spec_any_held(spec_update(s, ev.code, ev.value)),
    ensures
        spec_process(s, ev).1.code == ev.code,
{
}

/// Every key press and release is classed must-deliver: the channel policy
/// never sheds one, under any fullness condition.
pub proof fn lemma_press_release_must_deliver(class: u16, value: i32)
    requires
        class == EV_KEY,
        value == crate::keys::VALUE_PRESS || value == crate::keys::VALUE_RELEASE,
    ensures
        spec_send_mode(class, value) == SendMode::MustDeliver,
{
}

/// Every synchronization event is classed must-deliver: the framing of
/// event batches is never shed.
pub proof fn lemma_synchronization_must_deliver(class: u16, value: i32)
    requires
        class == EV_SYN,
    ensures
        spec_send_mode(class, value) == SendMode::MustDeliver,
{
}

/// What processing a whole batch produces: the modifier state after the
/// batch, and one output-and-mode pair per event, in the batch's order.
pub open spec fn spec_process_batch(s: ModifierState, evs: Seq<Event>) -> (
    ModifierState,
    Seq<(Event, SendMode)>,
)
    decreases evs.len(),
{
    if evs.len() == 0 {
        (s, Seq::empty())
    } else {
        let prefix = spec_process_batch(s, evs.drop_last());
        let step = spec_process(prefix.0, evs.last());
        (step.0, prefix.1.push((step.1, step.2)))
    }
}

/// Processes a batch of device events in order: exactly the per-event
/// processing, folded over the batch.  Within one device's batch nothing is
/// reordered — the pair at a position is the processing of the event at
/// that position, under the modifier state the preceding events left.
pub fn process_batch(mods: &mut ModifierState, evs: &Vec<Event>) -> (out: Vec<(Event, SendMode)>)
    ensures
        (*final(mods), out@) == spec_process_batch(*old(mods), evs@),
        out@.len() == evs@.len(),
{
    let ghost s0 = *mods;
    let mut out: Vec<(Event, SendMode)> = Vec::new();
    let n = evs.len();
    let mut i: usize = 0;
    while i < n
        invariant
            n == evs@.len(),
            i <= n,
            out@.len() == i,
            (*mods, out@) == spec_process_batch(s0, evs@.take(i as int)),
        decreases n - i,
    {
        let (ev_out, mode) = process_event(mods, evs[i]);
        out.push((ev_out, mode));
        proof {
            assert(evs@.take(i + 1).drop_last() =~= evs@.take(i as int));
            assert(evs@.take(i + 1).last() == evs@[i as int]);
        }
        i = i + 1;
    }
    proof {
        assert(evs@.take(n as int) =~= evs@);
    }
    out
}

/// Batch processing changes neither an event's class nor its value, and
/// hands every event the submission mode of the class policy.  With the
/// channel's guarantee that a must-deliver submission is never dropped,
/// every press, release and synchronization event of a batch survives any
/// channel-fullness condition.
pub proof fn lemma_batch_keeps_class_value_and_mode(s: ModifierState, evs: Seq<Event>, i: int)
    requires
        0 <= i < evs.len(),
    ensures
        spec_process_batch(s, evs).1[i].0.class == evs[i].class,
        spec_process_batch(s, evs).1[i].0.value == evs[i].value,
        spec_process_batch(s, evs).1[i].1 == spec_send_mode(evs[i].class, evs[i].value),
    decreases evs.len(),
{
    lemma_batch_len(s, evs.drop_last());
    if i < evs.len() - 1 {
        lemma_batch_keeps_class_value_and_mode(s, evs.drop_last(), i);
        assert(spec_process_batch(s, evs).1[i] == spec_process_batch(s, evs.drop_last()).1[i]);
        assert(evs.drop_last()[i] == evs[i]);
    } else {
        assert(spec_process_batch(s, evs).1[i]
            == (spec_process(spec_process_batch(s, evs.drop_last()).0, evs.last()).1,
        spec_process(spec_process_batch(s, evs.drop_last()).0, evs.last()).2));
        assert(evs.last() == evs[i]);
    }
}

/// A processed batch has one output pair per input event.
pub proof fn lemma_batch_len(s: ModifierState, evs: Seq<Event>)
    ensures
        spec_process_batch(s, evs).1.len() == evs.len(),
    decreases evs.len(),
{
    if evs.len() > 0 {
        lemma_batch_len(s, evs.drop_last());
    }
}

} // verus!
