//! Operating modes and per-poll event routing.
//!
//! Each poll iteration diffs the previous snapshot against the current one
//! and routes the resulting events by mode: log-only observes, legacy mode
//! dispatches the first event raw, and gestured mode feeds button events to
//! the gesture machine while dispatching other events immediately. At most
//! one dispatch comes out of a single poll; once an event triggers one, the
//! remaining events of that poll are dropped by design, since the handler
//! may alter the physical state before the next poll.

use vstd::prelude::*;

use crate::config::Config;
use crate::events::Event;
use crate::events::spec_transitions;
use crate::events::transitions;
use crate::gesture::GestureState;
use crate::gesture::gesture_down;
use crate::gesture::gesture_up;
use crate::gesture::spec_gesture_down;
use crate::gesture::spec_gesture_up;
use crate::protocol::State;

verus! {

/// What policy the daemon is running under.
pub enum Mode {
    /// Log events only, no handler.
    LogOnly,
    /// Fire the handler with raw event names, no gesture detection.
    Legacy(String),
    /// Gesture detection on the button, handler with profile dispatch.
    ConfigMode(Config),
}

/// What the event loop should do after processing a poll.
#[derive(Debug)]
pub enum Action {
    /// No handler to run; keep polling.
    Continue,
    /// Release the device, run this script with these arguments, reacquire.
    RunHandler(String, Vec<String>),
}

/// The mathematical shape of an [`Action`]: the script path and arguments
/// as character sequences.
#[verifier::ext_equal]
pub enum ActionModel {
    Continue,
    RunHandler(Seq<char>, Seq<Seq<char>>),
}

impl View for Action {
    type V = ActionModel;

    open spec fn view(&self) -> ActionModel {
        match self {
            Action::Continue => ActionModel::Continue,
            Action::RunHandler(script, args) => ActionModel::RunHandler(
                script@,
                args.deep_view(),
            ),
        }
    }
}

/// The dispatch decision for a lifecycle event (device arrived or left),
/// which needs no release/reclaim bracket: log-only observes, the other
/// modes hand the event name to their handler.
pub open spec fn spec_emit(mode: Mode, ev: Event) -> ActionModel {
    match mode {
        Mode::LogOnly => ActionModel::Continue,
        Mode::Legacy(script) => ActionModel::RunHandler(script@, seq![ev.spec_tag()]),
        Mode::ConfigMode(c) => ActionModel::RunHandler(c.handler@, seq![ev.spec_tag()]),
    }
}

/// Decide the handler invocation for a lifecycle event.
pub fn emit_handler(mode: &Mode, ev: Event) -> (act: Action)
    ensures
        act@ == spec_emit(*mode, ev),
{
    match mode {
        Mode::LogOnly => Action::Continue,
        Mode::Legacy(script) => {
            let mut args: Vec<String> = Vec::new();
            args.push(ev.tag().to_owned());
            proof {
                assert(args.deep_view() =~= seq![ev.spec_tag()]);
            }
            Action::RunHandler(script.clone(), args)
        },
        Mode::ConfigMode(config) => {
            let mut args: Vec<String> = Vec::new();
            args.push(ev.tag().to_owned());
            proof {
                assert(args.deep_view() =~= seq![ev.spec_tag()]);
            }
            Action::RunHandler(config.handler.clone(), args)
        },
    }
}

/// Route a single event: the new gesture state, and the dispatch that stops
/// this poll's routing, if the event triggers one.
pub open spec fn spec_route(mode: Mode, g: GestureState, ev: Event, now_ms: u64) -> (
    GestureState,
    Option<ActionModel>,
) {
    match mode {
        Mode::LogOnly => (g, None),
        Mode::Legacy(script) => (g, Some(ActionModel::RunHandler(script@, seq![ev.spec_tag()]))),
        Mode::ConfigMode(c) => match ev {
            Event::ButtonDown => (spec_gesture_down(g), None),
            Event::ButtonUp => (spec_gesture_up(g, now_ms), None),
            _ => (g, Some(ActionModel::RunHandler(c.handler@, seq![ev.spec_tag()]))),
        },
    }
}

/// Route a poll's events in order until one triggers a dispatch: the final
/// gesture state and the single action the poll decides on.
pub open spec fn spec_process(
    mode: Mode,
    g: GestureState,
    evs: Seq<Event>,
    now_ms: u64,
) -> (GestureState, ActionModel)
    decreases evs.len(),
{
    if evs.len() == 0 {
        (g, ActionModel::Continue)
    } else {
        let step = spec_route(mode, g, evs[0], now_ms);
        match step.1 {
            Some(a) => (step.0, a),
            None => spec_process(mode, step.0, evs.skip(1), now_ms),
        }
    }
}

/// Process state transitions and return what action to take.
///
/// In gestured mode, button events update the gesture machine and trigger
/// no handler; any other event dispatches immediately. In legacy mode the
/// first event dispatches. In log-only mode nothing dispatches.
pub fn process_transitions(
    prev: State,
    curr: State,
    mode: &Mode,
    gesture: &mut GestureState,
    now_ms: u64,
) -> (act: Action)
    ensures
        *final(gesture) == spec_process(
            *mode,
            *old(gesture),
            spec_transitions(prev, curr),
            now_ms,
        ).0,
        act@ == spec_process(*mode, *old(gesture), spec_transitions(prev, curr), now_ms).1,
{
    let ghost g0 = *gesture;
    let evs = transitions(prev, curr);
    let ghost evs0 = evs@;
    proof {
        assert(evs0.skip(0) =~= evs0);
    }
    let mut i: usize = 0;
    while i < evs.len()
        invariant
            g0 == *old(gesture),
            i <= evs@.len(),
            evs@ == evs0,
            evs0 == spec_transitions(prev, curr),
            spec_process(*mode, g0, evs0, now_ms) == spec_process(
                *mode,
                *gesture,
                evs0.skip(i as int),
                now_ms,
            ),
        decreases evs@.len() - i,
    {
        let ev = evs[i];
        proof {
            assert(evs0.skip(i as int)[0] == evs0[i as int]);
            assert(evs0.skip(i as int).skip(1) =~= evs0.skip(i as int + 1));
        }
        match mode {
            Mode::ConfigMode(config) => {
                match ev {
                    Event::ButtonDown => {
                        *gesture = gesture_down(*gesture);
                    },
                    Event::ButtonUp => {
                        *gesture = gesture_up(*gesture, now_ms);
                    },
                    _ => {
                        let mut args: Vec<String> = Vec::new();
                        args.push(ev.tag().to_owned());
                        proof {
                            assert(args.deep_view() =~= seq![ev.spec_tag()]);
                        }
                        return Action::RunHandler(config.handler.clone(), args);
                    },
                }
            },
            Mode::Legacy(script) => {
                let mut args: Vec<String> = Vec::new();
                args.push(ev.tag().to_owned());
                proof {
                    assert(args.deep_view() =~= seq![ev.spec_tag()]);
                }
                return Action::RunHandler(script.clone(), args);
            },
            Mode::LogOnly => {},
        }
        i += 1;
    }
    proof {
        assert(evs0.skip(evs0.len() as int) =~= Seq::<Event>::empty());
    }
    Action::Continue
}

/// The release at `since_ms` has aged past the timeout by the clock
/// reading `now_ms`.
pub open spec fn spec_timeout_expired(now_ms: u64, since_ms: u64, timeout_ms: u64) -> bool {
    since_ms <= now_ms && now_ms - since_ms >= timeout_ms
}

/// The finalization decision before a poll: only gestured mode with a
/// released run whose window has expired yields one. A mapped press count
/// dispatches `scan <label>`; an unmapped count is a no-op, not an error.
pub open spec fn spec_check_gesture_timeout(
    g: GestureState,
    mode: Mode,
    now_ms: u64,
) -> Option<ActionModel> {
    match mode {
        Mode::ConfigMode(c) => match g {
            GestureState::Released(count, since) => {
                if spec_timeout_expired(now_ms, since, c.gesture_timeout_ms) {
                    if c.profiles@.contains_key(count) {
                        Some(
                            ActionModel::RunHandler(
                                c.handler@,
                                seq!["scan"@, c.profiles@[count]@],
                            ),
                        )
                    } else {
                        Some(ActionModel::Continue)
                    }
                } else {
                    None
                }
            },
            _ => None,
        },
        _ => None,
    }
}

/// Check whether a gesture timeout has expired and return the action to
/// take; `None` means no finalization is due.
pub fn check_gesture_timeout(gesture: &GestureState, mode: &Mode, now_ms: u64) -> (r: Option<
    Action,
>)
    ensures
        match r {
            Some(a) => spec_check_gesture_timeout(*gesture, *mode, now_ms) == Some(a@),
            None => spec_check_gesture_timeout(*gesture, *mode, now_ms) is None,
        },
{
    let config = match mode {
        Mode::ConfigMode(c) => c,
        _ => {
            return None;
        },
    };
    let (count, since) = match gesture {
        GestureState::Released(count, since) => (*count, *since),
        _ => {
            return None;
        },
    };
    if !(since <= now_ms && now_ms - since >= config.gesture_timeout_ms) {
        return None;
    }
    match config.profiles.get(&count) {
        Some(profile) => {
            let mut args: Vec<String> = Vec::new();
            args.push("scan".to_owned());
            args.push(profile.clone());
            proof {
                assert(args.deep_view() =~= seq!["scan"@, config.profiles@[count]@]);
            }
            Some(Action::RunHandler(config.handler.clone(), args))
        },
        None => Some(Action::Continue),
    }
}

} // verus!
