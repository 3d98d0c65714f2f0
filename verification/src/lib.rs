//! Reliability core of an event-driven message-routing service.
//!
//! The library covers the reliable delivery pipeline: idempotent ingestion,
//! routing resolution, publish retry with bounded exponential backoff, the
//! dead-letter store that records, re-attempts and expires failed deliveries,
//! and the readiness loop that gates startup on the backing store.
//! Network and datastore I/O live outside the library; every decision the
//! pipeline makes is a verified function over plain values.

pub mod models;
pub mod errors;
pub mod config;
pub mod utils;
pub mod clock;
pub mod dlq;
pub mod guard;
pub mod ingest;
pub mod publisher;
pub mod bootstrap;
