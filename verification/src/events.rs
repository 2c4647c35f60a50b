//! Semantic events and the transition detector.
//!
//! [`transitions`] compares two hardware snapshots and yields the events
//! that explain the difference, in a fixed order: paper changes before
//! button changes, each event at most once per call. Device arrival and
//! departure never originate here; they are produced by the orchestrator
//! from the outcome of acquiring the device link.

use vstd::prelude::*;

use crate::protocol::State;

verus! {

/// Events that the daemon can emit. Identity is the tag; no payload.
#[derive(Debug, Clone, Copy, PartialEq, Eq, Structural)]
pub enum Event {
    DeviceArrived,
    DeviceLeft,
    PaperIn,
    PaperOut,
    ButtonDown,
    ButtonUp,
}

impl Event {
    /// The event's name as handed to the external handler.
    pub open spec fn spec_tag(self) -> Seq<char> {
        match self {
            Event::DeviceArrived => "device-arrived"@,
            Event::DeviceLeft => "device-left"@,
            Event::PaperIn => "paper-in"@,
            Event::PaperOut => "paper-out"@,
            Event::ButtonDown => "button-down"@,
            Event::ButtonUp => "button-up"@,
        }
    }

    /// The event's name as handed to the external handler.
    pub fn tag(self) -> (r: &'static str)
        ensures
            r@ == self.spec_tag(),
    {
        match self {
            Event::DeviceArrived => "device-arrived",
            Event::DeviceLeft => "device-left",
            Event::PaperIn => "paper-in",
            Event::PaperOut => "paper-out",
            Event::ButtonDown => "button-down",
            Event::ButtonUp => "button-up",
        }
    }
}

/// The ordered events that explain the difference between two snapshots:
/// paper in, paper out, button down, button up, each present exactly when
/// the corresponding field flipped that way.
pub open spec fn spec_transitions(prev: State, curr: State) -> Seq<Event> {
    (if !prev.paper && curr.paper {
        seq![Event::PaperIn]
    } else {
        Seq::empty()
    }) + (if prev.paper && !curr.paper {
        seq![Event::PaperOut]
    } else {
        Seq::empty()
    }) + (if !prev.button && curr.button {
        seq![Event::ButtonDown]
    } else {
        Seq::empty()
    }) + (if prev.button && !curr.button {
        seq![Event::ButtonUp]
    } else {
        Seq::empty()
    })
}

/// Compare two states and yield the transition events between them.
pub fn transitions(prev: State, curr: State) -> (evs: Vec<Event>)
    ensures
        evs@ == spec_transitions(prev, curr),
{
    let mut evs: Vec<Event> = Vec::new();
    if !prev.paper && curr.paper {
        evs.push(Event::PaperIn);
    }
    if prev.paper && !curr.paper {
        evs.push(Event::PaperOut);
    }
    if !prev.button && curr.button {
        evs.push(Event::ButtonDown);
    }
    if prev.button && !curr.button {
        evs.push(Event::ButtonUp);
    }
    proof {
        assert(evs@ =~= spec_transitions(prev, curr));
    }
    evs
}

/// Identical states explain themselves: no events at all.
pub proof fn lemma_no_change_no_events(s: State)
    ensures
        spec_transitions(s, s) =~= Seq::<Event>::empty(),
{
}

} // verus!
