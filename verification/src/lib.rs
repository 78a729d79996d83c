//! Core engine of a concurrent HTTP load generator: run configuration,
//! outcome statistics, admission-rate limiting, snapshot publication and
//! the shutdown/drain protocol, each with a verified contract.

pub mod aggregate;
pub mod config;
pub mod engine;
pub mod limiter;
pub mod ring;
pub mod stats;

pub use config::Config;
pub use stats::Statistic;
