//! Retrieval pipeline for single tweets: a fetch state machine with
//! session-expiry recovery, a media normalizer that resolves each
//! attachment to its highest-quality URL, and a fixed-window admission
//! control guarding the pipeline.

pub mod fetch;
pub mod limiter;
pub mod models;
pub mod normalize;
pub mod query;
