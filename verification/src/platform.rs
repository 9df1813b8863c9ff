//! Platform capabilities: thread affinity and counter acquisition.
//!
//! The harness depends only on the [`Platform`] trait; the binary supplies
//! one implementation per operating system. [`UnsupportedPlatform`] is the
//! portable fallback for systems without an affinity or counter API.

use vstd::prelude::*;
use crate::stats::CpuStats;

verus! {

/// Why a platform operation failed.
#[derive(Debug, Clone, Copy, PartialEq, Eq, Structural)]
pub enum PlatformError {
    /// The operating system offers no API for this operation.
    Unsupported,
    /// The underlying OS call reported failure, with its error code
    /// (for instance, an invalid core id handed to the affinity call).
    Os(i32),
}

/// The platform-capability interface: pinning the calling thread to one
/// logical core, and taking a single consistent snapshot of the cumulative
/// utilization counters (the aggregate entry followed by one entry per
/// logical core). The rest of the harness depends only on this trait.
pub trait Platform {
    /// Restrict the calling thread's eligible execution set to exactly
    /// `core_id`, replacing any prior affinity mask. Idempotent; the effect
    /// is thread-local.
    fn set_affinity(&mut self, core_id: usize) -> Result<(), PlatformError>;

    /// Read one consistent snapshot of the cumulative utilization counters:
    /// the system-wide aggregate first, then one entry per logical core.
    /// Must fail rather than return partial data.
    fn read_cpu_stats(&mut self) -> Result<Vec<CpuStats>, PlatformError>;
}

/// Pin the calling thread to one logical core, on a system without an
/// affinity API: always refused as `Unsupported`, with no effect.
pub fn set_affinity(_cpu_id: usize) -> (r: Result<(), PlatformError>)
    ensures
        r == Err::<(), PlatformError>(PlatformError::Unsupported),
{
    Err(PlatformError::Unsupported)
}

/// Read a counter snapshot, on a system without a counter source: always
/// refused as `Unsupported`, never partial data.
pub fn read_cpu_stats() -> (r: Result<Vec<CpuStats>, PlatformError>)
    ensures
        r is Err && r->Err_0 == PlatformError::Unsupported,
{
    Err(PlatformError::Unsupported)
}

/// Fallback for operating systems without affinity or counter APIs: every
/// operation reports `PlatformError::Unsupported`, and never partial data.
pub struct UnsupportedPlatform;

impl Platform for UnsupportedPlatform {
    fn set_affinity(&mut self, core_id: usize) -> (r: Result<(), PlatformError>)
        ensures
            r == Err::<(), PlatformError>(PlatformError::Unsupported),
    {
        set_affinity(core_id)
    }

    fn read_cpu_stats(&mut self) -> (r: Result<Vec<CpuStats>, PlatformError>)
        ensures
            r is Err && r->Err_0 == PlatformError::Unsupported,
    {
        read_cpu_stats()
    }
}

/// The logical core count implied by a counter snapshot: the entries minus
/// the aggregate. An empty snapshot yields the sentinel 0, "topology
/// unknown".
pub open spec fn spec_num_logical_cpus(stats: Seq<CpuStats>) -> int {
    if stats.len() == 0 {
        0
    } else {
        stats.len() - 1
    }
}

/// Derive the logical core count from a counter snapshot: one entry is the
/// system-wide aggregate, the rest are cores. 0 means "topology unknown".
pub fn get_num_logical_cpus(initial_stats: &[CpuStats]) -> (n: usize)
    ensures
        n == spec_num_logical_cpus(initial_stats@),
{
    if initial_stats.len() == 0 {
        0
    } else {
        initial_stats.len() - 1
    }
}

} // verus!
