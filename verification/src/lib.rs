//! Core of an event daemon for a document-scanner peripheral driven over a
//! vendor-specific USB transport.
//!
//! The library holds everything that can be reasoned about without touching
//! the bus: the binary command/response codec, the transition detector that
//! turns two hardware snapshots into semantic events, the gesture state
//! machine that groups rapid button presses, and the orchestration decisions
//! of the polling loop. The surrounding binary performs the USB transfers,
//! the sleeps and the handler invocations, and feeds their outcomes back in
//! as plain values.

pub mod config;
pub mod daemon;
pub mod events;
pub mod gesture;
pub mod orchestrator;
pub mod protocol;
