//! The utilization sampler of the contention experiment: it keeps the
//! previous counter snapshot, and on every sampling tick turns the fresh
//! snapshot into one utilization record per core, plus the exact CSV text
//! the monitor writes.

use vstd::prelude::*;
use vstd::string::StringExecFns;
use crate::stats::CpuStats;
use crate::usage::{
    CoreUsage, compute_usage, spec_user_centipct, spec_system_centipct, spec_total_centipct,
};
use crate::platform::{get_num_logical_cpus, spec_num_logical_cpus};
use crate::csvfmt::{spec_dec, spec_centi, push_u64, push_centi, push_comma, push_newline};

verus! {

/// One row of the contention-monitor time series: the utilization of one
/// core over one sampling interval, in hundredths of a percent, stamped
/// with the time elapsed since the experiment started.
#[derive(Debug, Clone, Copy, PartialEq, Eq, Structural)]
pub struct UtilizationRecord {
    pub elapsed_ms: u64,
    pub core_id: usize,
    pub user_centipct: u64,
    pub system_centipct: u64,
    pub total_centipct: u64,
}

/// The record a sampling tick owes for one core: the three percentages of
/// the interval between the core's previous and current snapshot.
pub open spec fn spec_record(elapsed_ms: u64, core_id: int, prev: CpuStats, curr: CpuStats) -> UtilizationRecord {
    UtilizationRecord {
        elapsed_ms,
        core_id: core_id as usize,
        user_centipct: spec_user_centipct(prev, curr) as u64,
        system_centipct: spec_system_centipct(prev, curr) as u64,
        total_centipct: spec_total_centipct(prev, curr) as u64,
    }
}

/// The records one sampling tick owes: one per core, in ascending core
/// order, each derived from the entries after the aggregate (index 0) of
/// the previous and current snapshots.
pub open spec fn spec_tick_records(
    elapsed_ms: u64,
    prev: Seq<CpuStats>,
    curr: Seq<CpuStats>,
    n: nat,
) -> Seq<UtilizationRecord> {
    Seq::new(n, |i: int| spec_record(elapsed_ms, i, prev[i + 1], curr[i + 1]))
}

/// The CSV row text of one utilization record, two decimal places per
/// percentage, terminated by one line feed.
pub open spec fn spec_record_row(rec: UtilizationRecord) -> Seq<char> {
    spec_dec(rec.elapsed_ms as nat) + seq![','] + spec_dec(rec.core_id as nat) + seq![',']
        + spec_centi(rec.user_centipct as nat) + seq![','] + spec_centi(rec.system_centipct as nat)
        + seq![','] + spec_centi(rec.total_centipct as nat) + seq!['\n']
}

/// The exact header line of the contention-monitor output.
pub open spec fn spec_monitor_header() -> Seq<char> {
    "elapsed_ms,core_id,user_percent,system_percent,total_usage_percent\n"@
}

/// The header line the contention-monitor output begins with.
pub fn monitor_header() -> (r: String)
    ensures
        r@ == spec_monitor_header(),
{
    String::from_str("elapsed_ms,core_id,user_percent,system_percent,total_usage_percent\n")
}

/// Render one utilization record as its CSV row.
pub fn render_record(rec: &UtilizationRecord) -> (r: String)
    ensures
        r@ == spec_record_row(*rec),
{
    let mut out = String::new();
    push_u64(&mut out, rec.elapsed_ms);
    push_comma(&mut out);
    push_u64(&mut out, rec.core_id as u64);
    push_comma(&mut out);
    push_centi(&mut out, rec.user_centipct);
    push_comma(&mut out);
    push_centi(&mut out, rec.system_centipct);
    push_comma(&mut out);
    push_centi(&mut out, rec.total_centipct);
    push_newline(&mut out);
    assert(out@ =~= spec_record_row(*rec));
    out
}

/// The utilization sampler: retains only the immediately preceding counter
/// snapshot, and on each tick computes per-core deltas against it. The
/// core count is fixed by the initial snapshot.
pub struct UtilizationSampler {
    pub num_cpus: usize,
    pub prev: Vec<CpuStats>,
}

impl UtilizationSampler {
    /// The snapshot held always has one entry per core after the
    /// aggregate, unless the topology is unknown.
    pub open spec fn wf(&self) -> bool {
        self.num_cpus == 0 || self.prev@.len() == self.num_cpus + 1
    }

    /// How many cores each tick reports on.
    pub open spec fn spec_num_cpus(&self) -> int {
        self.num_cpus as int
    }

    /// The snapshot the next tick will diff against.
    pub open spec fn spec_prev(&self) -> Seq<CpuStats> {
        self.prev@
    }

    /// Start sampling from an initial snapshot; the core count it implies
    /// stays fixed for the sampler's lifetime.
    pub fn new(initial: Vec<CpuStats>) -> (s: Self)
        ensures
            s.wf(),
            s.spec_num_cpus() == spec_num_logical_cpus(initial@),
            s.spec_prev() == initial@,
    {
        let num_cpus = get_num_logical_cpus(initial.as_slice());
        UtilizationSampler { num_cpus, prev: initial }
    }

    /// One sampling tick: compute one record per core from the interval
    /// between the retained snapshot and `curr`, then retain `curr` for
    /// the next tick.
    pub fn tick(&mut self, elapsed_ms: u64, curr: Vec<CpuStats>) -> (records: Vec<UtilizationRecord>)
        requires
            old(self).wf(),
            curr@.len() == old(self).spec_prev().len(),
        ensures
            final(self).wf(),
            final(self).spec_num_cpus() == old(self).spec_num_cpus(),
            final(self).spec_prev() == curr@,
            records@ == spec_tick_records(
                elapsed_ms,
                old(self).spec_prev(),
                curr@,
                old(self).spec_num_cpus() as nat,
            ),
    {
        let mut records: Vec<UtilizationRecord> = Vec::new();
        let num_cpus = self.num_cpus;
        for core_id in 0..num_cpus
            invariant
                num_cpus == self.num_cpus,
                self == old(self),
                self.wf(),
                curr@.len() == self.prev@.len(),
                records@.len() == core_id,
                forall|i: int| 0 <= i < core_id ==> records@[i] == spec_record(
                    elapsed_ms,
                    i,
                    self.prev@[i + 1],
                    curr@[i + 1],
                ),
        {
            let usage: CoreUsage = compute_usage(&self.prev[core_id + 1], &curr[core_id + 1]);
            records.push(
                UtilizationRecord {
                    elapsed_ms,
                    core_id,
                    user_centipct: usage.user_centipct,
                    system_centipct: usage.system_centipct,
                    total_centipct: usage.total_centipct,
                },
            );
        }
        assert(records@ =~= spec_tick_records(
            elapsed_ms,
            self.prev@,
            curr@,
            self.num_cpus as nat,
        ));
        self.prev = curr;
        records
    }
}

} // verus!
