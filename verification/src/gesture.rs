//! The gesture state machine.
//!
//! A gesture is a run of button presses separated by gaps shorter than the
//! configured timeout. The machine consumes button-down and button-up
//! events; the orchestrator checks the timeout against a monotonic clock
//! reading and finalizes the run when the gap since the last release has
//! grown long enough.

use vstd::prelude::*;

verus! {

/// Where a press run stands. Timestamps are monotonic milliseconds.
#[derive(Debug, Clone, Copy, PartialEq, Eq, Structural)]
pub enum GestureState {
    /// No press in progress, no pending window.
    Idle,
    /// Button currently held; the count of presses accumulated in this run.
    Pressed(u32),
    /// Button up after a run of the given count, released at the given
    /// instant; the run stays open for a continuation until the timeout.
    Released(u32, u64),
}

/// A press count, once one exists, is at least one.
pub open spec fn gesture_wf(g: GestureState) -> bool {
    match g {
        GestureState::Idle => true,
        GestureState::Pressed(n) => n >= 1,
        GestureState::Released(n, _) => n >= 1,
    }
}

/// A button-down event: starts a run, continues one that is still open,
/// and is a no-op while the button already reads as held.
pub open spec fn spec_gesture_down(g: GestureState) -> GestureState {
    match g {
        GestureState::Idle => GestureState::Pressed(1),
        GestureState::Pressed(n) => GestureState::Pressed(n),
        GestureState::Released(n, _) => GestureState::Pressed(
            if n < u32::MAX { (n + 1) as u32 } else { n },
        ),
    }
}

/// A button-up event: closes the held run at the given instant. An open
/// release window is not disturbed — the run keeps waiting for a
/// continuation or the timeout — and idle stays idle.
pub open spec fn spec_gesture_up(g: GestureState, now_ms: u64) -> GestureState {
    match g {
        GestureState::Pressed(n) => GestureState::Released(n, now_ms),
        GestureState::Released(n, since) => GestureState::Released(n, since),
        GestureState::Idle => GestureState::Idle,
    }
}

/// Apply a button-down event to the machine.
pub fn gesture_down(g: GestureState) -> (g2: GestureState)
    ensures
        g2 == spec_gesture_down(g),
{
    match g {
        GestureState::Idle => GestureState::Pressed(1),
        GestureState::Pressed(n) => GestureState::Pressed(n),
        GestureState::Released(n, _) => {
            if n < u32::MAX {
                GestureState::Pressed(n + 1)
            } else {
                GestureState::Pressed(n)
            }
        },
    }
}

/// Apply a button-up event to the machine at the given instant.
pub fn gesture_up(g: GestureState, now_ms: u64) -> (g2: GestureState)
    ensures
        g2 == spec_gesture_up(g, now_ms),
{
    match g {
        GestureState::Pressed(n) => GestureState::Released(n, now_ms),
        GestureState::Released(n, since) => GestureState::Released(n, since),
        GestureState::Idle => GestureState::Idle,
    }
}

/// Both button events preserve well-formedness: the press count never
/// drops below one.
pub proof fn lemma_gesture_steps_wf(g: GestureState, now_ms: u64)
    requires
        gesture_wf(g),
    ensures
        gesture_wf(spec_gesture_down(g)),
        gesture_wf(spec_gesture_up(g, now_ms)),
{
}

} // verus!
