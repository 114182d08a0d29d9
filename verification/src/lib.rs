//! Decision logic of a focus-driven window minimizer.
//!
//! The crate holds the parts of the monitor that decide: which windows a walk
//! over the desktop keeps, when a cached list of windows is stale, which
//! windows count as targets or are protected, and which windows are minimized
//! when a target gains focus. Talking to the window system is left to the
//! caller, who hands in plain values and carries out what comes back.

pub mod text;
pub mod window;
pub mod keywords;
pub mod classify;
pub mod config;
pub mod enumerate;
pub mod cache;
pub mod monitor;
