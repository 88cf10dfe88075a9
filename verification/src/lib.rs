//! Core of a blockchain-node watcher: polling loops with change detection,
//! fan-out of observed values, and cooperative shutdown.
//!
//! The pollers are written as state machines: a step takes the outcome of an
//! external fetch (or a received message) and decides what to record and what
//! to publish. The async runtime that schedules the loops and performs the
//! fetches lives outside the library and feeds plain values in.

pub mod shutdown;
pub mod types;
pub mod chain_poller;
pub mod stats_poller;
pub mod channel;
pub mod fee_poller;
