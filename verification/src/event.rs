//! The event funnel: the one ordered stream the application loop reads.
//!
//! Three sources feed it — the fixed-rate clock, the keyboard, and device
//! hot-plug notifications. Whichever source is ready first enters first;
//! the queue imposes no ordering of its own, so the loop observes events
//! in exactly the order they entered.

use crate::device::Device;
use vstd::prelude::*;

verus! {

/// A keyboard event, already reduced to the keys the dashboard reads.
#[derive(Clone, Copy, Debug, PartialEq, Eq, Structural)]
pub enum KeyPress {
    Esc,
    CharQ,
    CtrlC,
    Up,
    Down,
    Enter,
    Other,
}

/// A device hot-plug notification.
#[derive(Debug)]
pub enum BltEvent {
    /// A device appeared, with the metadata read from it.
    Add(Device),
    /// The device with this address went away.
    Remove(u64),
}

/// Everything the application loop can be woken by.
#[derive(Debug)]
pub enum Event {
    /// The fixed-rate clock fired.
    Tick,
    /// The terminal delivered a key.
    Input(KeyPress),
    /// A device appeared or went away.
    Blt(BltEvent),
}

/// The ordered channel between the funnel task and the application loop.
/// Events leave in exactly the order they entered.
#[derive(Debug)]
pub struct EventQueue {
    pub items: Vec<Event>,
}

impl EventQueue {
    pub fn new() -> (r: EventQueue)
        ensures
            r.items@.len() == 0,
    {
        EventQueue { items: Vec::new() }
    }

    /// Append one event behind everything already queued.
    pub fn send(&mut self, event: Event)
        ensures
            final(self).items@ == old(self).items@.push(event),
    {
        self.items.push(event);
    }

    /// Take the oldest queued event, if any.
    pub fn next(&mut self) -> (r: Option<Event>)
        ensures
            old(self).items@.len() == 0 ==> r is None && final(self).items@ == old(self).items@,
            old(self).items@.len() > 0 ==> r == Some(old(self).items@[0]) && final(self).items@
                == old(self).items@.subrange(1, old(self).items@.len() as int),
    {
        if self.items.is_empty() {
            None
        } else {
            Some(self.items.remove(0))
        }
    }

    /// How many events are waiting.
    pub fn len(&self) -> (r: usize)
        ensures
            r == self.items@.len(),
    {
        self.items.len()
    }
}

/// What is left of a queue holding `s` after its first `k` events were
/// taken.
pub open spec fn drained(s: Seq<Event>, k: int) -> Seq<Event> {
    s.subrange(k, s.len() as int)
}

/// The funnel preserves order: with `s` queued, the `k`-th take returns
/// `s[k]` and leaves the queue one step further along. Together with the
/// contracts of `send` and `next` this pins the loop's view to the exact
/// order the funnel observed.
pub proof fn lemma_funnel_order(s: Seq<Event>, k: int)
    requires
        0 <= k < s.len(),
    ensures
        drained(s, k)[0] == s[k],
        drained(s, k).subrange(1, drained(s, k).len() as int) == drained(s, k + 1),
        drained(s, 0) == s,
{
    assert(drained(s, k).subrange(1, drained(s, k).len() as int) =~= drained(s, k + 1));
    assert(drained(s, 0) =~= s);
}

} // verus!
