use std::collections::HashMap;

use s1500d::config::Config;
use s1500d::daemon::{check_gesture_timeout, process_transitions, Action, Mode};
use s1500d::gesture::GestureState;
use s1500d::protocol::State;

fn test_config() -> Config {
    Config {
        handler: "/bin/test-handler.sh".into(),
        gesture_timeout_ms: 400,
        log_level: "info".into(),
        profiles: HashMap::from([(1, "standard".into()), (2, "legal".into())]),
    }
}

// ── process_transitions ──────────────────────────────────────

#[test]
fn process_log_only_returns_continue() {
    let prev = State {
        paper: false,
        button: false,
    };
    let curr = State {
        paper: true,
        button: false,
    };
    let mut gesture = GestureState::Idle;
    let action = process_transitions(prev, curr, &Mode::LogOnly, &mut gesture, 0);
    assert!(matches!(action, Action::Continue));
}

#[test]
fn process_legacy_fires_handler() {
    let prev = State {
        paper: false,
        button: false,
    };
    let curr = State {
        paper: true,
        button: false,
    };
    let mut gesture = GestureState::Idle;
    let mode = Mode::Legacy("/bin/handler.sh".into());
    let action = process_transitions(prev, curr, &mode, &mut gesture, 0);
    match action {
        Action::RunHandler(script, args) => {
            assert_eq!(script, "/bin/handler.sh");
            assert_eq!(args, vec!["paper-in"]);
        }
        Action::Continue => panic!("expected RunHandler"),
    }
}

#[test]
fn process_config_button_down_starts_gesture() {
    let prev = State {
        paper: false,
        button: false,
    };
    let curr = State {
        paper: false,
        button: true,
    };
    let mut gesture = GestureState::Idle;
    let mode = Mode::ConfigMode(test_config());
    let action = process_transitions(prev, curr, &mode, &mut gesture, 0);
    assert!(matches!(action, Action::Continue));
    assert!(matches!(gesture, GestureState::Pressed(1)));
}

#[test]
fn process_config_button_up_releases_gesture() {
    let prev = State {
        paper: false,
        button: true,
    };
    let curr = State {
        paper: false,
        button: false,
    };
    let mut gesture = GestureState::Pressed(1);
    let mode = Mode::ConfigMode(test_config());
    let action = process_transitions(prev, curr, &mode, &mut gesture, 0);
    assert!(matches!(action, Action::Continue));
    assert!(matches!(gesture, GestureState::Released(1, _)));
}

#[test]
fn process_config_double_press() {
    let mut gesture = GestureState::Released(1, 1000);
    let mode = Mode::ConfigMode(test_config());

    // Second button down
    let prev = State {
        paper: false,
        button: false,
    };
    let curr = State {
        paper: false,
        button: true,
    };
    let action = process_transitions(prev, curr, &mode, &mut gesture, 1000);
    assert!(matches!(action, Action::Continue));
    assert!(matches!(gesture, GestureState::Pressed(2)));
}

#[test]
fn process_config_paper_fires_immediately() {
    let prev = State {
        paper: false,
        button: false,
    };
    let curr = State {
        paper: true,
        button: false,
    };
    let mut gesture = GestureState::Idle;
    let mode = Mode::ConfigMode(test_config());
    let action = process_transitions(prev, curr, &mode, &mut gesture, 0);
    match action {
        Action::RunHandler(script, args) => {
            assert_eq!(script, "/bin/test-handler.sh");
            assert_eq!(args, vec!["paper-in"]);
        }
        Action::Continue => panic!("expected RunHandler for paper-in"),
    }
}

#[test]
fn process_no_change_returns_continue() {
    let s = State {
        paper: false,
        button: false,
    };
    let mut gesture = GestureState::Idle;
    let action = process_transitions(s, s, &Mode::LogOnly, &mut gesture, 0);
    assert!(matches!(action, Action::Continue));
}

#[test]
fn process_config_button_up_keeps_open_window() {
    // A button-up while a release window is already open (the rebaseline
    // after a dispatch saw the button held) must not disturb the pending
    // run: it keeps waiting for a continuation or the timeout.
    let prev = State {
        paper: false,
        button: true,
    };
    let curr = State {
        paper: false,
        button: false,
    };
    let mut gesture = GestureState::Released(2, 500);
    let mode = Mode::ConfigMode(test_config());
    let action = process_transitions(prev, curr, &mode, &mut gesture, 600);
    assert!(matches!(action, Action::Continue));
    assert!(matches!(gesture, GestureState::Released(2, 500)));
}

// ── check_gesture_timeout ────────────────────────────────────

#[test]
fn gesture_timeout_not_config_mode() {
    let gesture = GestureState::Released(1, 1000);
    let mode = Mode::LogOnly;
    assert!(check_gesture_timeout(&gesture, &mode, 1000).is_none());
}

#[test]
fn gesture_timeout_not_released() {
    let gesture = GestureState::Pressed(1);
    let mode = Mode::ConfigMode(test_config());
    assert!(check_gesture_timeout(&gesture, &mode, 1000).is_none());
}

#[test]
fn gesture_timeout_not_expired() {
    let gesture = GestureState::Released(1, 1000);
    let mode = Mode::ConfigMode(test_config());
    assert!(check_gesture_timeout(&gesture, &mode, 1000).is_none());
}

#[test]
fn gesture_timeout_expired_mapped() {
    // Use a timestamp far enough in the past
    let gesture = GestureState::Released(1, 0);
    let mode = Mode::ConfigMode(test_config());
    let action = check_gesture_timeout(&gesture, &mode, 1000);
    match action {
        Some(Action::RunHandler(script, args)) => {
            assert_eq!(script, "/bin/test-handler.sh");
            assert_eq!(args, vec!["scan", "standard"]);
        }
        other => panic!("expected RunHandler, got {other:?}"),
    }
}

#[test]
fn gesture_timeout_expired_double_press() {
    let gesture = GestureState::Released(2, 0);
    let mode = Mode::ConfigMode(test_config());
    let action = check_gesture_timeout(&gesture, &mode, 1000);
    match action {
        Some(Action::RunHandler(_, args)) => {
            assert_eq!(args, vec!["scan", "legal"]);
        }
        other => panic!("expected RunHandler for double press, got {other:?}"),
    }
}

#[test]
fn gesture_timeout_expired_unmapped() {
    let gesture = GestureState::Released(5, 0);
    let mode = Mode::ConfigMode(test_config());
    let action = check_gesture_timeout(&gesture, &mode, 1000);
    assert!(matches!(action, Some(Action::Continue)));
}

#[test]
fn gesture_timeout_boundary_exact() {
    // The window closes exactly at the timeout: elapsed == timeout expires.
    let gesture = GestureState::Released(1, 600);
    let mode = Mode::ConfigMode(test_config());
    assert!(check_gesture_timeout(&gesture, &mode, 999).is_none());
    let action = check_gesture_timeout(&gesture, &mode, 1000);
    assert!(matches!(action, Some(Action::RunHandler(_, _))));
}
