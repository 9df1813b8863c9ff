//! Exact decimal text for the CSV output: unsigned integers and fixed-point
//! percentages with two decimal places.

use vstd::prelude::*;
use vstd::arithmetic::div_mod::{lemma_div_is_strictly_smaller, lemma_small_mod};
use vstd::string::StringExecFns;

verus! {

/// The decimal digit character for one digit value.
pub open spec fn spec_digit(d: int) -> char {
    if d == 0 {
        '0'
    } else if d == 1 {
        '1'
    } else if d == 2 {
        '2'
    } else if d == 3 {
        '3'
    } else if d == 4 {
        '4'
    } else if d == 5 {
        '5'
    } else if d == 6 {
        '6'
    } else if d == 7 {
        '7'
    } else if d == 8 {
        '8'
    } else {
        '9'
    }
}

/// The usual decimal rendering of `n`: most significant digit first, no
/// leading zeros except for `n == 0` itself.
pub open spec fn spec_dec(n: nat) -> Seq<char>
    decreases n,
{
    if n < 10 {
        seq![spec_digit(n as int)]
    } else {
        spec_dec(n / 10).push(spec_digit((n % 10) as int))
    }
}

/// A value in hundredths rendered with two decimal places: `2550` becomes
/// `25.50`.
pub open spec fn spec_centi(c: nat) -> Seq<char> {
    spec_dec(c / 100) + seq!['.', spec_digit(((c % 100) / 10) as int), spec_digit((c % 10) as int)]
}

/// Append the character of one decimal digit.
fn push_digit(out: &mut String, d: u64)
    requires
        d < 10,
    ensures
        final(out)@ == old(out)@ + seq![spec_digit(d as int)],
{
    let lit: &str = match d {
        0 => "0",
        1 => "1",
        2 => "2",
        3 => "3",
        4 => "4",
        5 => "5",
        6 => "6",
        7 => "7",
        8 => "8",
        _ => "9",
    };
    proof {
        reveal_strlit("0");
        reveal_strlit("1");
        reveal_strlit("2");
        reveal_strlit("3");
        reveal_strlit("4");
        reveal_strlit("5");
        reveal_strlit("6");
        reveal_strlit("7");
        reveal_strlit("8");
        reveal_strlit("9");
        assert(lit@ =~= seq![spec_digit(d as int)]);
    }
    out.append(lit);
    assert(out@ =~= old(out)@ + seq![spec_digit(d as int)]);
}

/// Append the decimal rendering of `n`.
pub fn push_u64(out: &mut String, n: u64)
    ensures
        final(out)@ == old(out)@ + spec_dec(n as nat),
    decreases n,
{
    if n >= 10 {
        proof {
            lemma_div_is_strictly_smaller(n as int, 10);
        }
        push_u64(out, n / 10);
        push_digit(out, n % 10);
        assert(out@ =~= old(out)@ + spec_dec(n as nat));
    } else {
        proof {
            lemma_small_mod(n as nat, 10);
        }
        push_digit(out, n % 10);
        assert(out@ =~= old(out)@ + spec_dec(n as nat));
    }
}

/// Append the two-decimal-place rendering of a value held in hundredths.
pub fn push_centi(out: &mut String, c: u64)
    ensures
        final(out)@ == old(out)@ + spec_centi(c as nat),
{
    push_u64(out, c / 100);
    let dot: &str = ".";
    proof {
        reveal_strlit(".");
        assert(dot@ =~= seq!['.']);
    }
    out.append(dot);
    push_digit(out, (c % 100) / 10);
    push_digit(out, c % 10);
    assert(out@ =~= old(out)@ + spec_centi(c as nat));
}

/// Append one comma separator.
pub fn push_comma(out: &mut String)
    ensures
        final(out)@ == old(out)@ + seq![','],
{
    let lit: &str = ",";
    proof {
        reveal_strlit(",");
        assert(lit@ =~= seq![',']);
    }
    out.append(lit);
}

/// Append one line terminator.
pub fn push_newline(out: &mut String)
    ensures
        final(out)@ == old(out)@ + seq!['\n'],
{
    let lit: &str = "\n";
    proof {
        reveal_strlit("\n");
        assert(lit@ =~= seq!['\n']);
    }
    out.append(lit);
}

} // verus!
