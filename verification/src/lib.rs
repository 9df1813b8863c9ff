//! Per-core CPU profiling harness.
//!
//! The library holds the verified core of a small profiling tool: the model
//! of cumulative per-core utilization counters, the parser for the counter
//! source text, the topology probe, the per-core workload sweep, and the
//! sampling logic of the contention experiment. Platform calls (thread
//! affinity, reading the counter source, spawning threads) are injected
//! through the [`platform::Platform`] trait and performed by the surrounding
//! binary.

pub mod contention;
pub mod csvfmt;
pub mod monitor;
pub mod parse;
pub mod platform;
pub mod stats;
pub mod sweep;
pub mod usage;

pub use stats::CpuStats;
pub use sweep::{WorkloadResult, profile_workload_on_all_cores};
