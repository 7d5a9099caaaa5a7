//! Proposal-generation coordinator for a block sequencer's batching component.
//!
//! The coordinator accepts requests to build a block proposal, enforces a
//! single in-flight proposal at a time, pulls candidate transactions from a
//! mempool in bounded batches, relays them in order through a bounded FIFO
//! channel to a pluggable block builder, and clears its state on every exit
//! path. The asynchronous plumbing (locks, task spawning, channel waits) is
//! left to the embedding program; every decision the coordinator takes is
//! verified here as a sequential state machine over plain values.

pub mod communication;
pub mod config;
pub mod errors;
pub mod gateway_types;
pub mod laws;
pub mod manager;
pub mod relay;
pub mod task;
pub mod transaction;
