//! Core of a pluggable data-ingestion-and-enrichment platform.
//!
//! The crate defines the contracts that independently authored plugins must
//! meet — source connectors that pull records and enrichment functions that
//! transform them — together with the runtime that composes them: a connector
//! lifecycle state machine, an ordered stage chain with short-circuit
//! semantics, and a pipeline executor with per-record fault isolation,
//! guaranteed resource release, and cooperative cancellation.

pub mod chain;
pub mod connectors;
pub mod executor;
pub mod functions;
pub mod plugins;
pub mod value;
