//! Host-metrics sampling and publishing: one snapshot of CPU, memory and
//! process-count statistics per tick, encoded as a JSON object and handed to
//! a message broker under a fixed key.
//!
//! The crate holds the decisions of the sample, serialize, publish cycle
//! and the text formats it emits; waiting for the timer and for the broker's
//! acknowledgement is left to the caller, which feeds the outcomes back in.

pub mod decimal;
pub mod number;
pub mod text;
pub mod metrics;
pub mod payload;
pub mod producer;
pub mod sampler;
pub mod config;
pub mod cycle;
