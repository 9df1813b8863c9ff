//! Configuration and sizing of the contention experiment: several workers
//! pinned to one core, released together by a single rendezvous barrier,
//! optionally observed by a sampling monitor.

use vstd::prelude::*;

verus! {

/// How often the monitor samples the counters, in milliseconds.
pub const SAMPLE_INTERVAL_MS: u64 = 100;

/// The contention experiment: `num_threads` workers all pinned to
/// `core_id`, busy-looping for `duration_ms` after a common barrier
/// release; with `sampling`, a monitor thread takes the extra barrier
/// slot and emits one utilization record per core every sampling
/// interval. Competing affinity requests to the one core are deliberately
/// not arbitrated: the OS scheduler's behavior is the subject observed.
#[derive(Debug, Clone, Copy, PartialEq, Eq, Structural)]
pub struct ContentionConfig {
    pub num_threads: usize,
    pub core_id: usize,
    pub duration_ms: u64,
    pub sampling: bool,
}

impl ContentionConfig {
    /// The rendezvous barrier is sized for every worker plus exactly one
    /// coordinating party — the monitor thread when sampling is on,
    /// otherwise the main thread — so all timed work starts at once.
    pub fn barrier_size(&self) -> (n: usize)
        requires
            self.num_threads < usize::MAX,
        ensures
            n == self.num_threads + 1,
    {
        self.num_threads + 1
    }

    /// Whether the coordinating barrier party is a monitor thread (true)
    /// or the main thread itself (false).
    pub fn monitor_takes_barrier_slot(&self) -> (b: bool)
        ensures
            b == self.sampling,
    {
        self.sampling
    }

    /// Whether a sampling tick is still owed at `elapsed_ms`: the monitor
    /// keeps sampling until the configured duration has elapsed.
    pub fn tick_pending(&self, elapsed_ms: u64) -> (b: bool)
        ensures
            b == (elapsed_ms < self.duration_ms),
    {
        elapsed_ms < self.duration_ms
    }
}

} // verus!
