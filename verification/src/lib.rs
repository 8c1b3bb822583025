//! Control core for a single long-running external scanning process.
//!
//! The library tracks at most one concurrently running external process,
//! serializes start requests against it, and reconciles observed process
//! exit with its internal state. All interaction with the operating system
//! (spawning the executable, probing it for liveness) happens outside the
//! library; callers perform those actions while holding one exclusive
//! critical section per request and hand the observed outcomes in as plain
//! values.

pub mod store;
pub mod controller;
pub mod history;
