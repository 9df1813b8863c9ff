//! Utilization percentages derived from two counter snapshots of one core.
//!
//! Percentages are held in hundredths of a percent (`centipct`), so 10000
//! stands for 100.00%. Integer fixed point keeps the arithmetic exact: an
//! interval with no elapsed ticks yields exactly 0 for every percentage,
//! never a division-by-zero fault.

use vstd::prelude::*;
use vstd::arithmetic::div_mod::{lemma_div_is_ordered, lemma_div_multiples_vanish};
use crate::stats::{CpuStats, sat_sub, spec_total_delta, delta, total_delta};

verus! {

/// Utilization of one core over one sampling interval, in hundredths of a
/// percent: `user_centipct == 2550` means 25.50% of the elapsed ticks were
/// spent in user mode.
#[derive(Debug, Clone, Copy, PartialEq, Eq, Structural)]
pub struct CoreUsage {
    pub user_centipct: u64,
    pub system_centipct: u64,
    pub total_centipct: u64,
}

/// The share `delta` out of `total` in hundredths of a percent, rounded
/// down; 0 when no ticks elapsed at all.
pub open spec fn spec_centipct(delta: int, total: int) -> int {
    if total == 0 {
        0
    } else {
        10000 * delta / total
    }
}

/// User-mode share of the interval between two snapshots of one core.
pub open spec fn spec_user_centipct(prev: CpuStats, curr: CpuStats) -> int {
    spec_centipct(sat_sub(curr.user, prev.user), spec_total_delta(prev, curr))
}

/// System-mode share of the interval between two snapshots of one core.
pub open spec fn spec_system_centipct(prev: CpuStats, curr: CpuStats) -> int {
    spec_centipct(sat_sub(curr.system, prev.system), spec_total_delta(prev, curr))
}

/// Overall busy share of the interval: everything that was not idle,
/// 100.00% minus the idle share; 0 when no ticks elapsed at all.
pub open spec fn spec_total_centipct(prev: CpuStats, curr: CpuStats) -> int {
    let total = spec_total_delta(prev, curr);
    if total == 0 {
        0
    } else {
        10000 - 10000 * sat_sub(curr.idle, prev.idle) / total
    }
}

/// Each saturating per-category delta is at most the total delta, which
/// sums it with nine other non-negative terms.
proof fn lemma_delta_le_total(prev: CpuStats, curr: CpuStats)
    ensures
        sat_sub(curr.user, prev.user) <= spec_total_delta(prev, curr),
        sat_sub(curr.system, prev.system) <= spec_total_delta(prev, curr),
        sat_sub(curr.idle, prev.idle) <= spec_total_delta(prev, curr),
        spec_total_delta(prev, curr) >= 0,
{
}

/// A share of the total is at most the whole: `10000 * delta / total` is
/// between 0 and 10000 whenever `0 <= delta <= total`.
proof fn lemma_centipct_bounds(d: int, total: int)
    requires
        0 <= d <= total,
        0 < total,
    ensures
        0 <= 10000 * d / total <= 10000,
{
    lemma_div_is_ordered(0, 10000 * d, total);
    lemma_div_is_ordered(10000 * d, 10000 * total, total);
    lemma_div_multiples_vanish(10000, total);
}

/// Compute the utilization of one core over the interval from `prev` to
/// `curr`. When no ticks elapsed (`total delta == 0`), every percentage is
/// exactly 0 — the explicit no-activity state.
pub fn compute_usage(prev: &CpuStats, curr: &CpuStats) -> (r: CoreUsage)
    ensures
        r.user_centipct == spec_user_centipct(*prev, *curr),
        r.system_centipct == spec_system_centipct(*prev, *curr),
        r.total_centipct == spec_total_centipct(*prev, *curr),
        r.user_centipct <= 10000,
        r.system_centipct <= 10000,
        r.total_centipct <= 10000,
{
    proof {
        lemma_usage_in_range(*prev, *curr);
    }
    let total: u128 = total_delta(prev, curr);
    if total == 0 {
        CoreUsage { user_centipct: 0, system_centipct: 0, total_centipct: 0 }
    } else {
        let du: u128 = delta(curr.user, prev.user) as u128;
        let ds: u128 = delta(curr.system, prev.system) as u128;
        let di: u128 = delta(curr.idle, prev.idle) as u128;
        proof {
            lemma_delta_le_total(*prev, *curr);
            lemma_centipct_bounds(du as int, total as int);
            lemma_centipct_bounds(ds as int, total as int);
            lemma_centipct_bounds(di as int, total as int);
        }
        let user_centipct: u64 = (10000 * du / total) as u64;
        let system_centipct: u64 = (10000 * ds / total) as u64;
        let total_centipct: u64 = (10000 - 10000 * di / total) as u64;
        CoreUsage { user_centipct, system_centipct, total_centipct }
    }
}

/// Every computed percentage lies between 0.00% and 100.00%, for any two
/// snapshots whatever — counter resets included — and the overall busy
/// share is exactly 100.00% minus the idle share whenever any ticks
/// elapsed.
pub proof fn lemma_usage_in_range(prev: CpuStats, curr: CpuStats)
    ensures
        0 <= spec_user_centipct(prev, curr) <= 10000,
        0 <= spec_system_centipct(prev, curr) <= 10000,
        0 <= spec_total_centipct(prev, curr) <= 10000,
        spec_total_delta(prev, curr) > 0 ==> spec_total_centipct(prev, curr) == 10000
            - spec_centipct(sat_sub(curr.idle, prev.idle), spec_total_delta(prev, curr)),
{
    let total = spec_total_delta(prev, curr);
    lemma_delta_le_total(prev, curr);
    if total > 0 {
        lemma_centipct_bounds(sat_sub(curr.user, prev.user), total);
        lemma_centipct_bounds(sat_sub(curr.system, prev.system), total);
        lemma_centipct_bounds(sat_sub(curr.idle, prev.idle), total);
    }
}

/// An interval with no elapsed ticks yields exactly 0 for all three
/// percentages: no-activity is reported as zero, never as a fault.
pub proof fn lemma_zero_interval_zero_usage(prev: CpuStats, curr: CpuStats)
    requires
        spec_total_delta(prev, curr) == 0,
    ensures
        spec_user_centipct(prev, curr) == 0,
        spec_system_centipct(prev, curr) == 0,
        spec_total_centipct(prev, curr) == 0,
{
}

} // verus!
