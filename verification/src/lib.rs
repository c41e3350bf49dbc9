//! Bridge between a blockchain state-change feed and a message bus.
//!
//! The crate holds the verified core of the bridge: the translation of
//! declarative filter options into a subscription request, the per-update
//! formatting into canonical records, the single-producer/single-consumer
//! dispatch pipeline with its backpressure and shutdown policy, and the
//! metrics counters with delta reporting.

pub mod builder;
pub mod config;
pub mod encode;
pub mod filter;
pub mod format;
pub mod json;
pub mod metrics;
pub mod parse;
pub mod pipeline;
