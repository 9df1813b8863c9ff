use core_profiler::stats::{CpuStats, delta, total_delta};
use core_profiler::usage::compute_usage;

fn stats(user: u64, nice: u64, system: u64, idle: u64) -> CpuStats {
    CpuStats {
        user,
        nice,
        system,
        idle,
        iowait: 0,
        irq: 0,
        softirq: 0,
        steal: 0,
        guest: 0,
        guest_nice: 0,
    }
}

#[test]
fn saturating_delta_never_goes_negative() {
    assert_eq!(delta(10, 3), 7);
    assert_eq!(delta(3, 10), 0);
    assert_eq!(delta(5, 5), 0);
    assert_eq!(delta(u64::MAX, 0), u64::MAX);
}

#[test]
fn total_delta_sums_all_categories() {
    let prev = CpuStats {
        user: 1,
        nice: 2,
        system: 3,
        idle: 4,
        iowait: 5,
        irq: 6,
        softirq: 7,
        steal: 8,
        guest: 9,
        guest_nice: 10,
    };
    let curr = CpuStats {
        user: 11,
        nice: 12,
        system: 13,
        idle: 14,
        iowait: 15,
        irq: 16,
        softirq: 17,
        steal: 18,
        guest: 19,
        guest_nice: 20,
    };
    assert_eq!(total_delta(&prev, &curr), 100);
}

#[test]
fn usage_exact_shares() {
    // 100 elapsed ticks: 25 user, 10 system, 50 idle, 15 nice.
    let prev = CpuStats { nice: 5, ..stats(0, 0, 0, 0) };
    let curr = CpuStats { nice: 20, ..stats(25, 0, 10, 50) };
    let u = compute_usage(&prev, &curr);
    assert_eq!(u.user_centipct, 2500);
    assert_eq!(u.system_centipct, 1000);
    assert_eq!(u.total_centipct, 5000);
}

#[test]
fn usage_idle_interval_is_zero_busy() {
    let prev = stats(10, 10, 10, 100);
    let curr = stats(10, 10, 10, 300);
    let u = compute_usage(&prev, &curr);
    assert_eq!(u.user_centipct, 0);
    assert_eq!(u.system_centipct, 0);
    assert_eq!(u.total_centipct, 0);
}

#[test]
fn usage_fully_busy_interval() {
    let prev = stats(0, 0, 0, 77);
    let curr = stats(400, 0, 100, 77);
    let u = compute_usage(&prev, &curr);
    assert_eq!(u.user_centipct, 8000);
    assert_eq!(u.system_centipct, 2000);
    assert_eq!(u.total_centipct, 10000);
}

#[test]
fn usage_zero_interval_is_exactly_zero() {
    let s = stats(123, 45, 67, 890);
    let u = compute_usage(&s, &s);
    assert_eq!(u.user_centipct, 0);
    assert_eq!(u.system_centipct, 0);
    assert_eq!(u.total_centipct, 0);
}

#[test]
fn usage_counter_reset_saturates_to_zero() {
    // The counters went backwards (a reset): every delta saturates at 0,
    // so the interval counts as no activity.
    let prev = stats(1000, 1000, 1000, 1000);
    let curr = stats(10, 10, 10, 10);
    let u = compute_usage(&prev, &curr);
    assert_eq!(u.user_centipct, 0);
    assert_eq!(u.system_centipct, 0);
    assert_eq!(u.total_centipct, 0);
}

#[test]
fn usage_stays_within_bounds_on_mixed_reset() {
    // One category reset while others advanced: shares still lie in
    // [0, 100.00].
    let prev = stats(50, 0, 900, 10);
    let curr = stats(150, 0, 20, 60);
    let u = compute_usage(&prev, &curr);
    assert!(u.user_centipct <= 10000);
    assert!(u.system_centipct <= 10000);
    assert!(u.total_centipct <= 10000);
    // 100 user + 50 idle elapsed; system saturated to 0.
    assert_eq!(u.user_centipct, 6666);
    assert_eq!(u.system_centipct, 0);
    assert_eq!(u.total_centipct, 6667);
}

#[test]
fn usage_rounds_down_to_hundredths() {
    // 1 of 3 ticks in user mode: 33.33% truncated from 33.333...
    let prev = stats(0, 0, 0, 0);
    let curr = stats(1, 0, 0, 2);
    let u = compute_usage(&prev, &curr);
    assert_eq!(u.user_centipct, 3333);
    assert_eq!(u.total_centipct, 10000 - 6666);
}
