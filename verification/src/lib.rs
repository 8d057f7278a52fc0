//! Concurrent URL reachability checking: a job queue feeding a worker
//! pool, a bounded retry policy per request, an append-only collection
//! of per-URL outcomes, and a deterministic JSON report of them.
//!
//! The crate holds the engine's logic — configuration parsing, the
//! retry policy, the queue and result-set structures and the report
//! serializer — each with its contract. The surrounding process
//! (threads, HTTP calls, file reads and writes) drives these pieces
//! from outside.

pub mod config;
pub mod engine;
pub mod numfmt;
pub mod outcome;
pub mod queue;
pub mod report;
pub mod retry;
