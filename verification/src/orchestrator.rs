//! The orchestrator's decision core.
//!
//! The long-running control loop owns the device link, polls it, diffs
//! snapshots, feeds the gesture machine, and brackets every dispatch with a
//! release/reacquire of the link. Everything the loop decides is here, as a
//! state machine stepped by the outcomes of the outside work: link
//! acquisition succeeded or failed, a poll returned a snapshot or failed,
//! the clock reached a gesture deadline. The surrounding binary performs
//! the USB transfers, sleeps and handler invocations and feeds each outcome
//! back in; it takes no decision of its own.

use vstd::prelude::*;

use crate::daemon::Action;
use crate::daemon::ActionModel;
use crate::daemon::Mode;
use crate::daemon::check_gesture_timeout;
use crate::daemon::emit_handler;
use crate::daemon::process_transitions;
use crate::daemon::spec_check_gesture_timeout;
use crate::daemon::spec_emit;
use crate::daemon::spec_process;
use crate::events::Event;
use crate::events::spec_transitions;
use crate::gesture::GestureState;
use crate::protocol::State;

verus! {

/// Base sleep between polls, in milliseconds.
pub const POLL_INTERVAL_MS: u64 = 100;

/// Shorter sleep while a gesture awaits finalization, to bound the
/// worst-case finalize latency.
pub const PENDING_POLL_INTERVAL_MS: u64 = 20;

/// Sleep between acquisition attempts while the device is absent.
pub const RECONNECT_INTERVAL_MS: u64 = 2000;

/// The orchestrator's whole mutable state: the configured mode, whether
/// the device was present at the last acquisition attempt, the baseline
/// snapshot the next diff will run against, and the gesture machine.
pub struct Daemon {
    pub mode: Mode,
    pub was_present: bool,
    pub prev: Option<State>,
    pub gesture: GestureState,
}

/// A failed acquisition attempt: the first failure after a present period
/// emits the device-left event and resets baseline and gesture; further
/// failures decide nothing.
pub open spec fn spec_on_open_failed(d: Daemon) -> (Daemon, ActionModel) {
    if d.was_present {
        (
            Daemon {
                mode: d.mode,
                was_present: false,
                prev: None,
                gesture: GestureState::Idle,
            },
            spec_emit(d.mode, Event::DeviceLeft),
        )
    } else {
        (d, ActionModel::Continue)
    }
}

/// A successful acquisition: the first success after an absent period
/// emits the device-arrived event; reacquisitions decide nothing.
pub open spec fn spec_on_opened(d: Daemon) -> (Daemon, ActionModel) {
    if !d.was_present {
        (
            Daemon {
                mode: d.mode,
                was_present: true,
                prev: d.prev,
                gesture: d.gesture,
            },
            spec_emit(d.mode, Event::DeviceArrived),
        )
    } else {
        (d, ActionModel::Continue)
    }
}

/// The pre-poll gesture deadline check: a due finalization resets the
/// machine to idle and yields the finalization's action.
pub open spec fn spec_on_gesture_tick(d: Daemon, now_ms: u64) -> (Daemon, Option<ActionModel>) {
    match spec_check_gesture_timeout(d.gesture, d.mode, now_ms) {
        Some(a) => (
            Daemon {
                mode: d.mode,
                was_present: d.was_present,
                prev: d.prev,
                gesture: GestureState::Idle,
            },
            Some(a),
        ),
        None => (d, None),
    }
}

/// A successful status poll: the first snapshot after (re)acquisition only
/// seeds the baseline; later ones are diffed against the baseline and
/// routed, and the snapshot becomes the new baseline.
pub open spec fn spec_on_status(d: Daemon, state: State, now_ms: u64) -> (Daemon, ActionModel) {
    match d.prev {
        None => (
            Daemon {
                mode: d.mode,
                was_present: d.was_present,
                prev: Some(state),
                gesture: d.gesture,
            },
            ActionModel::Continue,
        ),
        Some(p) => {
            let r = spec_process(d.mode, d.gesture, spec_transitions(p, state), now_ms);
            (
                Daemon {
                    mode: d.mode,
                    was_present: d.was_present,
                    prev: Some(state),
                    gesture: r.0,
                },
                r.1,
            )
        },
    }
}

/// The device is presumed lost mid-session (a poll failed, or the link
/// could not be reclaimed after a dispatch): no partial state is trusted,
/// so the baseline is cleared and re-seeded on the next acquisition.
pub open spec fn spec_on_session_lost(d: Daemon) -> Daemon {
    Daemon {
        mode: d.mode,
        was_present: d.was_present,
        prev: None,
        gesture: d.gesture,
    }
}

/// A fresh snapshot taken right after a dispatch's reacquisition re-seeds
/// the baseline, so no diff ever runs against a state observed before the
/// handler ran.
pub open spec fn spec_on_rebaselined(d: Daemon, state: State) -> Daemon {
    Daemon {
        mode: d.mode,
        was_present: d.was_present,
        prev: Some(state),
        gesture: d.gesture,
    }
}

impl Daemon {
    /// A fresh orchestrator: device unseen, no baseline, gesture idle.
    pub fn new(mode: Mode) -> (d: Daemon)
        ensures
            d.mode == mode,
            !d.was_present,
            d.prev is None,
            d.gesture == GestureState::Idle,
    {
        Daemon { mode, was_present: false, prev: None, gesture: GestureState::Idle }
    }

    /// Record a failed acquisition attempt and decide the lifecycle
    /// dispatch, if this is the first failure after a present period.
    pub fn on_open_failed(&mut self) -> (act: Action)
        ensures
            *final(self) == spec_on_open_failed(*old(self)).0,
            act@ == spec_on_open_failed(*old(self)).1,
    {
        if self.was_present {
            self.was_present = false;
            self.prev = None;
            self.gesture = GestureState::Idle;
            emit_handler(&self.mode, Event::DeviceLeft)
        } else {
            Action::Continue
        }
    }

    /// Record a successful acquisition and decide the lifecycle dispatch,
    /// if this is the first success after an absent period.
    pub fn on_opened(&mut self) -> (act: Action)
        ensures
            *final(self) == spec_on_opened(*old(self)).0,
            act@ == spec_on_opened(*old(self)).1,
    {
        if !self.was_present {
            self.was_present = true;
            emit_handler(&self.mode, Event::DeviceArrived)
        } else {
            Action::Continue
        }
    }

    /// Check the gesture deadline against the clock before a poll; a due
    /// finalization resets the machine and hands back its action.
    pub fn on_gesture_tick(&mut self, now_ms: u64) -> (r: Option<Action>)
        ensures
            *final(self) == spec_on_gesture_tick(*old(self), now_ms).0,
            match r {
                Some(a) => spec_on_gesture_tick(*old(self), now_ms).1 == Some(a@),
                None => spec_on_gesture_tick(*old(self), now_ms).1 is None,
            },
    {
        let r = check_gesture_timeout(&self.gesture, &self.mode, now_ms);
        if r.is_some() {
            self.gesture = GestureState::Idle;
        }
        r
    }

    /// Feed a freshly observed snapshot: seed the baseline on the first
    /// poll of a session, otherwise diff, route, and advance the baseline.
    pub fn on_status(&mut self, state: State, now_ms: u64) -> (act: Action)
        ensures
            *final(self) == spec_on_status(*old(self), state, now_ms).0,
            act@ == spec_on_status(*old(self), state, now_ms).1,
    {
        match self.prev {
            None => {
                self.prev = Some(state);
                Action::Continue
            },
            Some(p) => {
                let act = process_transitions(p, state, &self.mode, &mut self.gesture, now_ms);
                self.prev = Some(state);
                act
            },
        }
    }

    /// The device is presumed lost mid-session: clear the baseline.
    pub fn on_session_lost(&mut self)
        ensures
            *final(self) == spec_on_session_lost(*old(self)),
    {
        self.prev = None;
    }

    /// Re-seed the baseline from the fresh post-dispatch snapshot.
    pub fn on_rebaselined(&mut self, state: State)
        ensures
            *final(self) == spec_on_rebaselined(*old(self), state),
    {
        self.prev = Some(state);
    }

    /// How long to sleep before the next poll: the short interval while a
    /// gesture awaits finalization in gestured mode, the base one else.
    pub fn poll_interval_ms(&self) -> (ms: u64)
        ensures
            ms == if self.mode is ConfigMode && self.gesture is Released {
                PENDING_POLL_INTERVAL_MS
            } else {
                POLL_INTERVAL_MS
            },
    {
        match (&self.mode, &self.gesture) {
            (Mode::ConfigMode(_), GestureState::Released(_, _)) => PENDING_POLL_INTERVAL_MS,
            _ => POLL_INTERVAL_MS,
        }
    }
}

/// Device loss mid-session followed by a successful reacquisition
/// re-baselines: the first snapshot observed after the loss only seeds the
/// baseline. Nothing is diffed against the stale pre-loss state, so no
/// dispatch fires and the gesture machine is untouched.
pub proof fn lemma_rebaseline_after_loss(d: Daemon, state: State, now_ms: u64)
    ensures
        spec_on_status(spec_on_session_lost(d), state, now_ms).1 == ActionModel::Continue,
        spec_on_status(spec_on_session_lost(d), state, now_ms).0.prev == Some(state),
        spec_on_status(spec_on_session_lost(d), state, now_ms).0.gesture == d.gesture,
        spec_on_status(spec_on_session_lost(d), state, now_ms).0.mode == d.mode,
{
}

/// The device-left event is emitted once per transition: a second failed
/// acquisition in a row decides nothing.
pub proof fn lemma_device_left_emitted_once(d: Daemon)
    ensures
        spec_on_open_failed(spec_on_open_failed(d).0).1 == ActionModel::Continue,
{
}

/// The device-arrived event is emitted once per transition: a repeated
/// successful acquisition decides nothing.
pub proof fn lemma_device_arrived_emitted_once(d: Daemon)
    ensures
        spec_on_opened(spec_on_opened(d).0).1 == ActionModel::Continue,
{
}

} // verus!
