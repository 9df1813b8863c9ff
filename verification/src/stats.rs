//! Cumulative per-core utilization counters and their deltas.

use vstd::prelude::*;

verus! {

/// One snapshot of the cumulative utilization tick counters of a single
/// logical core (or of the system-wide aggregate). Every field counts ticks
/// spent in one scheduling category since boot; the counters only grow,
/// except across a counter reset, which deltas tolerate by saturating.
#[derive(Default, Debug, Clone, PartialEq, Eq, Structural)]
pub struct CpuStats {
    pub user: u64,
    pub nice: u64,
    pub system: u64,
    pub idle: u64,
    pub iowait: u64,
    pub irq: u64,
    pub softirq: u64,
    pub steal: u64,
    pub guest: u64,
    pub guest_nice: u64,
}

/// Saturating difference of two cumulative counters: never negative, so a
/// counter reset between the two snapshots yields 0 rather than wrapping.
pub open spec fn sat_sub(curr: u64, prev: u64) -> int {
    if curr >= prev {
        curr - prev
    } else {
        0
    }
}

/// The total number of ticks that elapsed between two snapshots of one core:
/// the sum of the saturating per-category deltas over all ten categories.
pub open spec fn spec_total_delta(prev: CpuStats, curr: CpuStats) -> int {
    sat_sub(curr.user, prev.user) + sat_sub(curr.nice, prev.nice) + sat_sub(
        curr.system,
        prev.system,
    ) + sat_sub(curr.idle, prev.idle) + sat_sub(curr.iowait, prev.iowait) + sat_sub(
        curr.irq,
        prev.irq,
    ) + sat_sub(curr.softirq, prev.softirq) + sat_sub(curr.steal, prev.steal) + sat_sub(
        curr.guest,
        prev.guest,
    ) + sat_sub(curr.guest_nice, prev.guest_nice)
}

/// Saturating subtraction on the counter width, as executable code.
pub fn delta(curr: u64, prev: u64) -> (r: u64)
    ensures
        r == sat_sub(curr, prev),
{
    if curr >= prev {
        curr - prev
    } else {
        0
    }
}

/// Total elapsed ticks between two snapshots of one core. Ten 64-bit deltas
/// are summed in 128 bits, so the sum cannot overflow.
pub fn total_delta(prev: &CpuStats, curr: &CpuStats) -> (r: u128)
    ensures
        r == spec_total_delta(*prev, *curr),
{
    delta(curr.user, prev.user) as u128 + delta(curr.nice, prev.nice) as u128 + delta(
        curr.system,
        prev.system,
    ) as u128 + delta(curr.idle, prev.idle) as u128 + delta(curr.iowait, prev.iowait) as u128
        + delta(curr.irq, prev.irq) as u128 + delta(curr.softirq, prev.softirq) as u128 + delta(
        curr.steal,
        prev.steal,
    ) as u128 + delta(curr.guest, prev.guest) as u128 + delta(curr.guest_nice, prev.guest_nice) as u128
}

} // verus!
