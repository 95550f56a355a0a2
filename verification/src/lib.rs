//! A small stateful logging service: events arriving over several channels are
//! recorded in a bounded history with per-channel counters, and the aggregate
//! is reported to HTTP, WebSocket and remote callers.

pub mod types;
pub mod outside;
pub mod model;
pub mod state;
pub mod handlers;
pub mod laws;
