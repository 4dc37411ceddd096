//! Core of a rate-limit monitor: a record of the most recent rate-limit
//! snapshot, the decisions of the poller that refreshes it, and the gauge
//! presentation that the renderer derives from it on every tick.
//!
//! Network access, terminal drawing and command-line parsing are left to the
//! program around this library; they hand it plain values and draw what it
//! returns.

pub mod snapshot;
pub mod decimal;
pub mod auth;
pub mod fetch;
pub mod presentation;
pub mod cli;
pub mod style;
pub mod state;
pub mod poller;
pub mod monitor;
