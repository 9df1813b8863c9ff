//! The per-core workload sweep: pin to each logical core in turn and run an
//! opaque workload, strictly sequentially, so one core's measurement is not
//! skewed by contention from another active benchmark.

use vstd::prelude::*;
use crate::platform::{Platform, PlatformError, get_num_logical_cpus, spec_num_logical_cpus};
use crate::stats::CpuStats;

verus! {

/// The outcome of one workload run on one core. The throughput is an
/// opaque measurement carried through as the bit pattern of an IEEE-754
/// double; the harness never interprets it, only the caller does.
#[derive(Debug, Clone)]
pub struct WorkloadResult {
    pub core_id: usize,
    pub throughput_bits: u64,
    pub unit: String,
}

/// The shape a sweep over a topology of `n` detected cores must have:
/// with unknown topology (`n == 0`) exactly one unpinned run reported as
/// core 0; otherwise exactly one result per core, in ascending core order.
pub open spec fn spec_sweep_shape(results: Seq<WorkloadResult>, n: int) -> bool {
    if n == 0 {
        &&& results.len() == 1
        &&& results[0].core_id == 0
    } else {
        &&& results.len() == n
        &&& forall|i: int| 0 <= i < n ==> #[trigger] results[i].core_id == i
    }
}

/// Every result in the sweep carries a throughput and unit that one run
/// of the workload can return: no measurement is invented or dropped on
/// the way into the result list.
pub open spec fn spec_sweep_payloads<F: Fn() -> (u64, String)>(
    workload: F,
    results: Seq<WorkloadResult>,
) -> bool {
    forall|i: int| 0 <= i < results.len() ==> call_ensures(
        workload,
        (),
        ((#[trigger] results[i]).throughput_bits, results[i].unit),
    )
}

/// Sweep the detected cores: for each core id in ascending order, attempt
/// to pin the calling thread there (failure is non-fatal — the workload
/// still runs, just without the intended isolation), then run the workload
/// once and record what that run returned. With unknown topology the
/// workload runs exactly once, unpinned, reported as core 0.
pub fn profile_on_detected_cores<P: Platform, F: Fn() -> (u64, String)>(
    platform: &mut P,
    workload: F,
    initial_stats: &[CpuStats],
) -> (results: Vec<WorkloadResult>)
    requires
        call_requires(workload, ()),
    ensures
        spec_sweep_shape(results@, spec_num_logical_cpus(initial_stats@)),
        spec_sweep_payloads(workload, results@),
{
    let num_cpus = get_num_logical_cpus(initial_stats);
    if num_cpus == 0 {
        let measured = workload();
        let mut results: Vec<WorkloadResult> = Vec::new();
        results.push(
            WorkloadResult { core_id: 0, throughput_bits: measured.0, unit: measured.1 },
        );
        return results;
    }
    let mut results: Vec<WorkloadResult> = Vec::new();
    for core_id in 0..num_cpus
        invariant
            call_requires(workload, ()),
            results.len() == core_id,
            forall|i: int| 0 <= i < core_id ==> #[trigger] results@[i].core_id == i,
            spec_sweep_payloads(workload, results@),
    {
        // Affinity failure degrades to an unpinned run; it never aborts the
        // sweep. The platform implementation sees the failure and may log it.
        let _ = platform.set_affinity(core_id);
        let measured = workload();
        results.push(
            WorkloadResult { core_id, throughput_bits: measured.0, unit: measured.1 },
        );
    }
    results
}

/// Run the full sweep: read the counters once to establish the topology,
/// then profile the workload on every detected core in ascending order,
/// each result carrying what its run of the workload returned. Only the
/// inability to read counters at all aborts the run, with the platform's
/// error; an affinity failure on one core does not.
pub fn profile_workload_on_all_cores<P: Platform, F: Fn() -> (u64, String)>(
    platform: &mut P,
    workload: F,
) -> (r: Result<Vec<WorkloadResult>, PlatformError>)
    requires
        call_requires(workload, ()),
    ensures
        r matches Ok(results) ==> {
            &&& results.len() >= 1
            &&& forall|i: int| 0 <= i < results.len() ==> #[trigger] results[i].core_id == i
            &&& spec_sweep_payloads(workload, results@)
        },
{
    let initial_stats = match platform.read_cpu_stats() {
        Ok(stats) => stats,
        Err(e) => {
            return Err(e);
        },
    };
    let results = profile_on_detected_cores(platform, workload, initial_stats.as_slice());
    Ok(results)
}

} // verus!
