use core_profiler::parse::{parse_cpu_stats, parse_line, parse_u64_field};
use core_profiler::stats::CpuStats;

#[test]
fn parses_aggregate_and_per_core_rows() {
    let content = b"cpu  100 2 300 4000 50 6 7 8 9 10\n\
                    cpu0 60 1 150 2000 25 3 4 4 5 5\n\
                    cpu1 40 1 150 2000 25 3 3 4 4 5\n\
                    intr 12345 0 0\n\
                    ctxt 999\n\
                    btime 1700000000\n";
    let parsed = parse_cpu_stats(content);
    assert_eq!(parsed.len(), 3);
    assert_eq!(
        parsed[0],
        CpuStats {
            user: 100,
            nice: 2,
            system: 300,
            idle: 4000,
            iowait: 50,
            irq: 6,
            softirq: 7,
            steal: 8,
            guest: 9,
            guest_nice: 10,
        }
    );
    assert_eq!(parsed[1].user, 60);
    assert_eq!(parsed[1].idle, 2000);
    assert_eq!(parsed[2].user, 40);
    assert_eq!(parsed[2].guest_nice, 5);
}

#[test]
fn empty_input_yields_no_samples() {
    assert!(parse_cpu_stats(b"").is_empty());
    assert!(parse_cpu_stats(b"\n\n").is_empty());
}

#[test]
fn non_counter_rows_are_skipped() {
    let content = b"intr 1 2 3 4 5 6 7 8 9 10\nprocs_running 2\n";
    assert!(parse_cpu_stats(content).is_empty());
}

#[test]
fn short_counter_rows_are_skipped() {
    // Nine fields only: one count too few.
    let parsed = parse_cpu_stats(b"cpu0 1 2 3 4 5 6 7 8\n");
    assert!(parsed.is_empty());
}

#[test]
fn missing_tenth_category_counts_as_zero() {
    let parsed = parse_cpu_stats(b"cpu0 1 2 3 4 5 6 7 8 9\n");
    assert_eq!(parsed.len(), 1);
    assert_eq!(parsed[0].guest, 9);
    assert_eq!(parsed[0].guest_nice, 0);
}

#[test]
fn final_line_without_newline_is_parsed() {
    let parsed = parse_cpu_stats(b"cpu0 1 2 3 4 5 6 7 8 9 10");
    assert_eq!(parsed.len(), 1);
    assert_eq!(parsed[0].user, 1);
    assert_eq!(parsed[0].guest_nice, 10);
}

#[test]
fn non_numeric_fields_count_as_zero() {
    let parsed = parse_line(b"cpu7 12 x3 4 5 6 7 8 9 10 11").unwrap();
    assert_eq!(parsed.user, 12);
    assert_eq!(parsed.nice, 0);
    assert_eq!(parsed.system, 4);
}

#[test]
fn line_not_starting_with_cpu_yields_nothing() {
    assert!(parse_line(b"gpu0 1 2 3 4 5 6 7 8 9 10").is_none());
    assert!(parse_line(b" cpu0 1 2 3 4 5 6 7 8 9 10").is_none());
    assert!(parse_line(b"cp").is_none());
}

#[test]
fn field_parsing_handles_emptiness_overflow_and_signs() {
    assert_eq!(parse_u64_field(b""), 0);
    assert_eq!(parse_u64_field(b"0"), 0);
    assert_eq!(parse_u64_field(b"007"), 7);
    assert_eq!(parse_u64_field(b"18446744073709551615"), u64::MAX);
    // One past the counter width: counts as 0.
    assert_eq!(parse_u64_field(b"18446744073709551616"), 0);
    assert_eq!(parse_u64_field(b"99999999999999999999999"), 0);
    assert_eq!(parse_u64_field(b"-3"), 0);
    assert_eq!(parse_u64_field(b"1 2"), 0);
}

#[test]
fn repeated_separators_are_tolerated() {
    // The aggregate row of the counter source has two spaces after its
    // name; tabs separate as well.
    let parsed = parse_line(b"cpu  1 2 3 4\t5 6 7 8 9 10").unwrap();
    assert_eq!(parsed.user, 1);
    assert_eq!(parsed.iowait, 5);
    assert_eq!(parsed.guest_nice, 10);
}
