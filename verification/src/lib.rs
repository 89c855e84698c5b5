//! Configuration resolution for a sink that ships log events to the New Relic
//! log ingestion API over a batching HTTP transport.

pub mod config;
pub mod error;
pub mod headers;
pub mod laws;
pub mod region;
pub mod transport;
pub mod units;
