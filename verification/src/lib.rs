//! Per-request middleware pipeline: a cooperative, resumable state machine
//! that drives one inbound request through an ordered chain of middleware
//! hooks (start, response, finish) around a handler's execution.
//!
//! The pipeline itself never blocks: every suspension point reports "not
//! ready" and is re-driven later by the caller's event loop. Collaborators
//! (byte sink, middleware hooks, handler unit) are consumed through the
//! capability traits in [`types`].

pub mod chain;
pub mod finish;
pub mod handle;
pub mod laws;
pub mod order;
pub mod pipeline;
pub mod response;
pub mod start;
pub mod types;
