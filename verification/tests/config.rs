use std::collections::HashMap;

use s1500d::config::{default_gesture_timeout_ms, default_log_level, Config};

#[test]
fn gesture_timeout_conversion() {
    let config = Config {
        handler: "/bin/h.sh".into(),
        gesture_timeout_ms: default_gesture_timeout_ms(),
        log_level: default_log_level(),
        profiles: HashMap::new(),
    };
    assert_eq!(config.gesture_timeout(), 400);
}

#[test]
fn default_settings_values() {
    assert_eq!(default_gesture_timeout_ms(), 400);
    assert_eq!(default_log_level(), "info");
}
