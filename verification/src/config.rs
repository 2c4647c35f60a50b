//! Validated daemon settings.
//!
//! Reading and parsing the configuration file is the surrounding binary's
//! job; the core consumes only this value object: the handler path, the
//! gesture timeout, and the mapping from press count to profile label.

use std::collections::HashMap;
use vstd::prelude::*;

verus! {

/// Default gesture timeout in milliseconds.
pub fn default_gesture_timeout_ms() -> (ms: u64)
    ensures
        ms == 400u64,
{
    400
}

/// Default log level.
pub fn default_log_level() -> (level: String)
    ensures
        level@ == "info"@,
{
    "info".to_owned()
}

/// Daemon settings, consumed read-only by the core.
#[derive(Debug)]
pub struct Config {
    /// Path of the external handler executable.
    pub handler: String,
    /// How long a released press run stays open for a continuation.
    pub gesture_timeout_ms: u64,
    /// Default log filter; read only at startup, outside the core.
    pub log_level: String,
    /// Press count to profile label.
    pub profiles: HashMap<u32, String>,
}

impl Config {
    /// The gesture timeout in milliseconds.
    pub fn gesture_timeout(&self) -> (ms: u64)
        ensures
            ms == self.gesture_timeout_ms,
    {
        self.gesture_timeout_ms
    }
}

} // verus!
