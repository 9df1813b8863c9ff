use core_profiler::contention::{ContentionConfig, SAMPLE_INTERVAL_MS};
use core_profiler::monitor::{UtilizationRecord, UtilizationSampler, monitor_header, render_record};
use core_profiler::stats::CpuStats;

fn stats(user: u64, system: u64, idle: u64) -> CpuStats {
    CpuStats {
        user,
        nice: 0,
        system,
        idle,
        iowait: 0,
        irq: 0,
        softirq: 0,
        steal: 0,
        guest: 0,
        guest_nice: 0,
    }
}

#[test]
fn header_is_exact() {
    assert_eq!(
        monitor_header(),
        "elapsed_ms,core_id,user_percent,system_percent,total_usage_percent\n"
    );
}

#[test]
fn record_row_has_two_decimal_places() {
    let rec = UtilizationRecord {
        elapsed_ms: 1234,
        core_id: 1,
        user_centipct: 2500,
        system_centipct: 1000,
        total_centipct: 5000,
    };
    assert_eq!(render_record(&rec), "1234,1,25.00,10.00,50.00\n");
}

#[test]
fn record_row_pads_fractions_with_zeros() {
    let rec = UtilizationRecord {
        elapsed_ms: 0,
        core_id: 12,
        user_centipct: 9,
        system_centipct: 10000,
        total_centipct: 105,
    };
    assert_eq!(render_record(&rec), "0,12,0.09,100.00,1.05\n");
}

#[test]
fn tick_emits_one_record_per_core_and_retains_the_snapshot() {
    // Aggregate entry plus two cores.
    let initial = vec![stats(0, 0, 0), stats(10, 0, 0), stats(20, 0, 0)];
    let mut sampler = UtilizationSampler::new(initial);

    // Core 0: 25 user of 100 elapsed; core 1: 10 system of 40 elapsed.
    let first = vec![
        stats(999, 999, 999),
        stats(35, 0, 75),
        stats(20, 10, 30),
    ];
    let records = sampler.tick(100, first.clone());
    assert_eq!(records.len(), 2);
    assert_eq!(records[0].core_id, 0);
    assert_eq!(records[1].core_id, 1);
    assert_eq!(records[0].elapsed_ms, 100);
    assert_eq!(records[0].user_centipct, 2500);
    assert_eq!(records[0].total_centipct, 2500);
    assert_eq!(records[1].system_centipct, 2500);
    assert_eq!(records[1].total_centipct, 2500);

    // The next tick diffs against the retained snapshot, not the initial
    // one: nothing changed, so every share is zero.
    let records = sampler.tick(200, first);
    assert_eq!(records.len(), 2);
    assert_eq!(records[0].user_centipct, 0);
    assert_eq!(records[0].total_centipct, 0);
    assert_eq!(records[1].total_centipct, 0);
}

#[test]
fn tick_with_unknown_topology_emits_nothing() {
    let mut sampler = UtilizationSampler::new(Vec::new());
    let records = sampler.tick(100, Vec::new());
    assert!(records.is_empty());
}

#[test]
fn barrier_holds_every_worker_plus_one_coordinator() {
    let cfg = ContentionConfig { num_threads: 4, core_id: 0, duration_ms: 1000, sampling: true };
    assert_eq!(cfg.barrier_size(), 5);
    assert!(cfg.monitor_takes_barrier_slot());
    let cfg = ContentionConfig { num_threads: 4, core_id: 0, duration_ms: 1000, sampling: false };
    assert_eq!(cfg.barrier_size(), 5);
    assert!(!cfg.monitor_takes_barrier_slot());
}

#[test]
fn sampling_runs_until_the_duration_elapses() {
    let cfg = ContentionConfig { num_threads: 2, core_id: 1, duration_ms: 1000, sampling: true };
    assert!(cfg.tick_pending(0));
    assert!(cfg.tick_pending(999));
    assert!(!cfg.tick_pending(1000));
    assert!(!cfg.tick_pending(1500));
    assert_eq!(SAMPLE_INTERVAL_MS, 100);
}
