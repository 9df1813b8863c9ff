//! Parser for the counter source text: one line per counter row, the
//! first whitespace-separated field a name starting with `cpu`, then the
//! cumulative tick counts of the ten categories. Lines that are not
//! counter rows, or hold fewer than nine counts, are skipped; a field
//! that is not a decimal number counts as 0.

use vstd::prelude::*;
use vstd::slice::slice_subrange;
use crate::stats::CpuStats;

verus! {

/// Field separators within a line.
pub open spec fn is_ws(b: u8) -> bool {
    b == 32 || b == 9 || b == 13
}

/// A decimal digit byte.
pub open spec fn is_digit(b: u8) -> bool {
    48 <= b <= 57
}

/// Whether every byte of `s` is a decimal digit.
pub open spec fn all_digits(s: Seq<u8>) -> bool {
    forall|i: int| 0 <= i < s.len() ==> is_digit(#[trigger] s[i])
}

/// The number the digit string `s` denotes, most significant digit first.
pub open spec fn spec_digits_value(s: Seq<u8>) -> int
    decreases s.len(),
{
    if s.len() == 0 {
        0
    } else {
        spec_digits_value(s.drop_last()) * 10 + (s.last() - 48)
    }
}

/// The count a field denotes: its decimal value if the field is a
/// non-empty digit string whose value fits the counter width, else 0.
pub open spec fn spec_parse_u64(s: Seq<u8>) -> u64 {
    if s.len() > 0 && all_digits(s) && spec_digits_value(s) <= u64::MAX {
        spec_digits_value(s) as u64
    } else {
        0
    }
}

/// The length of the leading run of non-separator bytes.
pub open spec fn spec_token_len(s: Seq<u8>) -> int
    decreases s.len(),
{
    if s.len() == 0 || is_ws(s[0]) {
        0
    } else {
        1 + spec_token_len(s.skip(1))
    }
}

proof fn lemma_token_len_bounds(s: Seq<u8>)
    ensures
        0 <= spec_token_len(s) <= s.len(),
    decreases s.len(),
{
    if s.len() != 0 && !is_ws(s[0]) {
        lemma_token_len_bounds(s.skip(1));
    }
}

/// The whitespace-separated fields of one line, in order.
pub open spec fn spec_fields(s: Seq<u8>) -> Seq<Seq<u8>>
    decreases s.len(),
    via spec_fields_decreases
{
    if s.len() == 0 {
        Seq::empty()
    } else if is_ws(s[0]) {
        spec_fields(s.skip(1))
    } else {
        seq![s.take(spec_token_len(s))] + spec_fields(s.skip(spec_token_len(s)))
    }
}

#[via_fn]
proof fn spec_fields_decreases(s: Seq<u8>) {
    lemma_token_len_bounds(s);
    if s.len() != 0 && !is_ws(s[0]) {
        lemma_token_len_bounds(s.skip(1));
    }
}

/// Whether a line is a counter row: its text starts with `cpu`.
pub open spec fn line_is_cpu(line: Seq<u8>) -> bool {
    line.len() >= 3 && line[0] == 99 && line[1] == 112 && line[2] == 117
}

/// The counter sample one line denotes: for a counter row with at least
/// nine counts after the name, the ten categories parsed from fields 1
/// through 10 (a missing tenth category counts as 0); for any other line,
/// nothing.
pub open spec fn spec_parse_line(line: Seq<u8>) -> Option<CpuStats> {
    let f = spec_fields(line);
    if line_is_cpu(line) && f.len() >= 10 {
        Some(
            CpuStats {
                user: spec_parse_u64(f[1]),
                nice: spec_parse_u64(f[2]),
                system: spec_parse_u64(f[3]),
                idle: spec_parse_u64(f[4]),
                iowait: spec_parse_u64(f[5]),
                irq: spec_parse_u64(f[6]),
                softirq: spec_parse_u64(f[7]),
                steal: spec_parse_u64(f[8]),
                guest: spec_parse_u64(f[9]),
                guest_nice: if f.len() >= 11 {
                    spec_parse_u64(f[10])
                } else {
                    0
                },
            },
        )
    } else {
        None
    }
}

/// The length of the leading line: the number of bytes before the first
/// line feed, or all of `s` if it has none.
pub open spec fn spec_line_len(s: Seq<u8>) -> int
    decreases s.len(),
{
    if s.len() == 0 || s[0] == 10 {
        0
    } else {
        1 + spec_line_len(s.skip(1))
    }
}

proof fn lemma_line_len_bounds(s: Seq<u8>)
    ensures
        0 <= spec_line_len(s) <= s.len(),
    decreases s.len(),
{
    if s.len() != 0 && s[0] != 10 {
        lemma_line_len_bounds(s.skip(1));
    }
}

/// The counter samples the whole text denotes: the samples of its counter
/// rows, in order of appearance.
pub open spec fn spec_parse_stats(s: Seq<u8>) -> Seq<CpuStats>
    decreases s.len(),
    via spec_parse_stats_decreases
{
    if s.len() == 0 {
        Seq::empty()
    } else {
        let k = spec_line_len(s);
        let rest = if k < s.len() {
            s.skip(k + 1)
        } else {
            Seq::empty()
        };
        match spec_parse_line(s.take(k)) {
            Some(c) => seq![c] + spec_parse_stats(rest),
            None => spec_parse_stats(rest),
        }
    }
}

#[via_fn]
proof fn spec_parse_stats_decreases(s: Seq<u8>) {
    lemma_line_len_bounds(s);
}

/// If the first `m` bytes of `s` hold no line feed and position `m` is a
/// line feed or the end, the leading line is exactly `m` bytes long.
proof fn lemma_line_len_at(s: Seq<u8>, m: int)
    requires
        0 <= m <= s.len(),
        forall|t: int| 0 <= t < m ==> s[t] != 10,
        m == s.len() || s[m] == 10,
    ensures
        spec_line_len(s) == m,
    decreases m,
{
    if m > 0 {
        lemma_line_len_at(s.skip(1), m - 1);
    }
}

/// If the first `m` bytes of `s` hold no separator and position `m` is a
/// separator or the end, the leading token is exactly `m` bytes long.
proof fn lemma_token_len_at(s: Seq<u8>, m: int)
    requires
        0 <= m <= s.len(),
        forall|t: int| 0 <= t < m ==> !is_ws(s[t]),
        m == s.len() || is_ws(s[m]),
    ensures
        spec_token_len(s) == m,
    decreases m,
{
    if m > 0 {
        lemma_token_len_at(s.skip(1), m - 1);
    }
}

/// Every value a digit string denotes is non-negative, and denoting is
/// monotone under extension by digits.
proof fn lemma_digits_value_nonneg(s: Seq<u8>)
    ensures
        spec_digits_value(s) >= 0 || !all_digits(s),
    decreases s.len(),
{
    if s.len() > 0 {
        lemma_digits_value_nonneg(s.drop_last());
        assert(s.drop_last().len() == s.len() - 1);
        assert(all_digits(s) ==> all_digits(s.drop_last())) by {
            if all_digits(s) {
                assert(forall|i: int|
                    0 <= i < s.len() - 1 ==> is_digit(#[trigger] s.drop_last()[i]));
            }
        }
    }
}

/// A digit-string prefix never denotes more than the whole string.
proof fn lemma_digits_prefix_le(s: Seq<u8>, i: int)
    requires
        all_digits(s),
        0 <= i <= s.len(),
    ensures
        spec_digits_value(s.take(i)) <= spec_digits_value(s),
    decreases s.len() - i,
{
    if i < s.len() {
        lemma_digits_prefix_le(s, i + 1);
        let p = s.take(i + 1);
        assert(p.drop_last() =~= s.take(i));
        assert(p.last() == s[i]);
        lemma_digits_value_nonneg(s.take(i));
        assert(all_digits(s.take(i))) by {
            assert(forall|t: int| 0 <= t < i ==> is_digit(#[trigger] s.take(i)[t]));
        }
        assert(spec_digits_value(s.take(i)) <= spec_digits_value(s.take(i + 1)));
    } else {
        assert(s.take(i) =~= s);
    }
}

/// Parse one field as a counter value: the denoted number, or 0 for an
/// empty or non-numeric field or one whose value does not fit.
pub fn parse_u64_field(tok: &[u8]) -> (r: u64)
    ensures
        r == spec_parse_u64(tok@),
{
    if tok.len() == 0 {
        return 0;
    }
    let mut val: u64 = 0;
    let mut i: usize = 0;
    while i < tok.len()
        invariant
            0 <= i <= tok@.len(),
            all_digits(tok@.take(i as int)),
            val == spec_digits_value(tok@.take(i as int)),
        decreases tok@.len() - i,
    {
        let b = tok[i];
        if b < 48 || b > 57 {
            // A non-digit anywhere makes the whole field count as 0.
            assert(!all_digits(tok@));
            return 0;
        }
        let d: u64 = (b - 48) as u64;
        let wide: u128 = val as u128 * 10 + d as u128;
        proof {
            let p = tok@.take(i + 1);
            assert(p.drop_last() =~= tok@.take(i as int));
            assert(p.last() == tok@[i as int]);
            assert(spec_digits_value(p) == val * 10 + d);
        }
        if wide > u64::MAX as u128 {
            // The value no longer fits the counter width.
            proof {
                if all_digits(tok@) {
                    lemma_digits_prefix_le(tok@, i + 1);
                }
            }
            return 0;
        }
        val = wide as u64;
        i = i + 1;
    }
    proof {
        assert(tok@.take(i as int) =~= tok@);
    }
    val
}

/// Split one line into its fields and parse each as a counter value.
fn parse_fields(line: &[u8]) -> (vals: Vec<u64>)
    ensures
        vals@.len() == spec_fields(line@).len(),
        forall|i: int| 0 <= i < vals@.len() ==> vals@[i] == spec_parse_u64(
            #[trigger] spec_fields(line@)[i],
        ),
{
    let mut vals: Vec<u64> = Vec::new();
    let mut pos: usize = 0;
    proof {
        assert(line@.skip(0) =~= line@);
        assert(spec_fields(line@).skip(0) =~= spec_fields(line@));
    }
    while pos < line.len()
        invariant
            0 <= pos <= line@.len(),
            spec_fields(line@.skip(pos as int)) =~= spec_fields(line@).skip(vals@.len() as int),
            vals@.len() <= spec_fields(line@).len(),
            forall|i: int| 0 <= i < vals@.len() ==> vals@[i] == spec_parse_u64(
                #[trigger] spec_fields(line@)[i],
            ),
        decreases line@.len() - pos,
    {
        let b = line[pos];
        if b == 32 || b == 9 || b == 13 {
            proof {
                assert(line@.skip(pos as int)[0] == line@[pos as int]);
                assert(line@.skip(pos as int).skip(1) =~= line@.skip(pos as int + 1));
            }
            pos = pos + 1;
        } else {
            let start = pos;
            let mut end = pos;
            while end < line.len() && line[end] != 32 && line[end] != 9 && line[end] != 13
                invariant
                    start <= end <= line@.len(),
                    forall|t: int| start <= t < end ==> !is_ws(#[trigger] line@[t]),
                decreases line@.len() - end,
            {
                end = end + 1;
            }
            let ghost sub = line@.skip(start as int);
            let ghost f = spec_fields(line@);
            let ghost m = vals@.len() as int;
            let tok = slice_subrange(line, start, end);
            let v = parse_u64_field(tok);
            proof {
                assert forall|t: int| 0 <= t < end - start implies !is_ws(sub[t]) by {
                    assert(sub[t] == line@[start + t]);
                }
                if end < line@.len() {
                    assert(sub[end - start] == line@[end as int]);
                }
                lemma_token_len_at(sub, end - start);
                assert(sub[0] == line@[start as int]);
                assert(!is_ws(sub[0]));
                assert(sub.take(end - start) =~= tok@);
                assert(spec_fields(sub) == seq![sub.take(spec_token_len(sub))] + spec_fields(
                    sub.skip(spec_token_len(sub)),
                ));
                assert(f.skip(m).len() >= 1);
                assert(f.skip(m)[0] == f[m]);
                assert(f[m] == sub.take(end - start));
                assert(v == spec_parse_u64(f[m]));
                assert(sub.skip(end - start) =~= line@.skip(end as int));
                assert(f.skip(m).skip(1) =~= f.skip(m + 1));
                assert(spec_fields(line@.skip(end as int)) =~= f.skip(m + 1));
            }
            vals.push(v);
            pos = end;
        }
    }
    proof {
        assert(line@.skip(pos as int) =~= Seq::<u8>::empty());
        assert(spec_fields(line@).skip(vals@.len() as int).len() == 0);
    }
    vals
}

/// Parse one line. A counter row (name starting with `cpu`, at least nine
/// counts after it) yields its sample; any other line yields nothing.
pub fn parse_line(line: &[u8]) -> (r: Option<CpuStats>)
    ensures
        r == spec_parse_line(line@),
{
    if line.len() < 3 || line[0] != 99 || line[1] != 112 || line[2] != 117 {
        return None;
    }
    let vals = parse_fields(line);
    if vals.len() < 10 {
        return None;
    }
    let guest_nice: u64 = if vals.len() >= 11 {
        vals[10]
    } else {
        0
    };
    Some(
        CpuStats {
            user: vals[1],
            nice: vals[2],
            system: vals[3],
            idle: vals[4],
            iowait: vals[5],
            irq: vals[6],
            softirq: vals[7],
            steal: vals[8],
            guest: vals[9],
            guest_nice,
        },
    )
}

/// Parse the whole counter source text: one sample per counter row, in
/// order — the system-wide aggregate row first when the text has the
/// usual shape.
pub fn parse_cpu_stats(content: &[u8]) -> (r: Vec<CpuStats>)
    ensures
        r@ == spec_parse_stats(content@),
{
    let mut r: Vec<CpuStats> = Vec::new();
    let mut pos: usize = 0;
    proof {
        assert(content@.skip(0) =~= content@);
        assert(r@ + spec_parse_stats(content@) =~= spec_parse_stats(content@));
    }
    while pos < content.len()
        invariant
            0 <= pos <= content@.len(),
            spec_parse_stats(content@) =~= r@ + spec_parse_stats(content@.skip(pos as int)),
        decreases content@.len() - pos,
    {
        let start = pos;
        let mut end = pos;
        while end < content.len() && content[end] != 10
            invariant
                start <= end <= content@.len(),
                forall|t: int| start <= t < end ==> content@[t] != 10,
            decreases content@.len() - end,
        {
            end = end + 1;
        }
        let ghost sub = content@.skip(start as int);
        let ghost r_before = r@;
        let line = slice_subrange(content, start, end);
        let parsed = parse_line(line);
        proof {
            assert forall|t: int| 0 <= t < end - start implies sub[t] != 10 by {
                assert(sub[t] == content@[start + t]);
            }
            if end < content@.len() {
                assert(sub[end - start] == content@[end as int]);
            }
            lemma_line_len_at(sub, end - start);
            assert(sub.take(end - start) =~= line@);
            assert(spec_parse_line(sub.take(end - start)) == parsed);
            if end < content@.len() {
                assert(sub.skip((end - start) + 1) =~= content@.skip(end + 1));
            } else {
                assert(spec_line_len(sub) == sub.len());
            }
        }
        match parsed {
            Some(c) => {
                r.push(c);
            },
            None => {},
        }
        if end < content.len() {
            pos = end + 1;
            proof {
                assert(spec_parse_stats(content@) =~= r@ + spec_parse_stats(
                    content@.skip(pos as int),
                ));
            }
        } else {
            pos = end;
            proof {
                assert(content@.skip(pos as int) =~= Seq::<u8>::empty());
                assert(spec_parse_stats(content@.skip(pos as int)) =~= Seq::<CpuStats>::empty());
                assert(spec_parse_stats(content@) =~= r@ + spec_parse_stats(
                    content@.skip(pos as int),
                ));
            }
        }
    }
    proof {
        assert(content@.skip(pos as int) =~= Seq::<u8>::empty());
    }
    r
}

} // verus!
