//! Workflow lifecycle and multi-backend upload coordination for a build
//! session over a content-addressed artifact store.
//!
//! The crate performs no I/O. Each operation is a small state machine: it
//! tells its driver what to do next (enumerate the store, resolve an
//! identifier, hand a batch to the backends, drain them, deliver the shutdown
//! notification) and is told what came of it.

pub mod api;
pub mod backend;
pub mod counts;
pub mod error;
pub mod laws;
pub mod session;
pub mod signal;
pub mod snapshot;
pub mod store_path;
pub mod workflow;
