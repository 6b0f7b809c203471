//! The on-chain analytics contract: game and platform metrics, privacy-
//! preserving player behaviour, cross-contract counters and an hourly
//! circular buffer.
pub mod types;
pub mod model;
pub mod contract;
pub mod reporting;
pub mod aggregate;
pub mod laws;
