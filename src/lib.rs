//! A task-automation engine: tasks are registered with an interval, an
//! optional resolver and a whitelist of keepers; keepers drive execution
//! forward, and each task carries a prepaid gas balance.
//!
//! The engine is a verified state machine. Host services (authorization,
//! the clock, cross-component calls, token transfers, durable storage)
//! stay outside it: the caller performs them and hands the engine plain
//! values.

pub mod model;
pub mod engine;
pub mod laws;
