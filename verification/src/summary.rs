//! Decimal renderings of cursor positions, for the buffer's textual
//! summaries.

use vstd::prelude::*;
use vstd::arithmetic::div_mod::lemma_div_is_ordered;
use vstd::arithmetic::div_mod::lemma_div_multiples_vanish;
use vstd::arithmetic::div_mod::lemma_mod_multiples_basic;
use vstd::arithmetic::div_mod::lemma_multiply_divide_lt;
use vstd::arithmetic::mul::lemma_mul_inequality;
use vstd::arithmetic::mul::lemma_mul_strict_inequality;
use vstd::string::StringExecFns;

verus! {

/// The character for one decimal digit.
pub open spec fn digit_char(d: nat) -> char {
    if d == 0 {
        '0'
    } else if d == 1 {
        '1'
    } else if d == 2 {
        '2'
    } else if d == 3 {
        '3'
    } else if d == 4 {
        '4'
    } else if d == 5 {
        '5'
    } else if d == 6 {
        '6'
    } else if d == 7 {
        '7'
    } else if d == 8 {
        '8'
    } else {
        '9'
    }
}

/// The decimal digits of `n`, most significant first, without leading
/// zeroes except for `n == 0` itself.
pub open spec fn spec_decimal(n: nat) -> Seq<char>
    decreases n,
{
    if n < 10 {
        seq![digit_char(n)]
    } else {
        spec_decimal(n / 10) + seq![digit_char(n % 10)]
    }
}

/// The share of `part` in `total`, in tenths of a percent, rounded to the
/// nearest with ties going to the even value; zero when `total` is zero.
pub open spec fn spec_permille(part: nat, total: nat) -> nat {
    if total == 0 {
        0
    } else {
        let q = part * 1000 / total;
        let r = part * 1000 % total;
        if 2 * r > total {
            q + 1
        } else if 2 * r == total && q % 2 == 1 {
            q + 1
        } else {
            q
        }
    }
}

/// The percentage with one decimal place, as text: the whole percent
/// digits, a dot, and the tenths digit.
pub open spec fn spec_percent_text(part: nat, total: nat) -> Seq<char> {
    spec_decimal(spec_permille(part, total) / 10) + seq!['.'] + seq![
        digit_char(spec_permille(part, total) % 10),
    ]
}

/// The short cursor summary: filled, initialized and capacity in decimal,
/// separated by slashes.
pub open spec fn spec_counts_text(filled: nat, init: nat, cap: nat) -> Seq<char> {
    spec_decimal(filled) + "/"@ + spec_decimal(init) + "/"@ + spec_decimal(cap)
}

/// The detailed cursor summary, with each cursor's share of the capacity as
/// a one-decimal-place percentage.
pub open spec fn spec_counts_detailed_text(filled: nat, init: nat, cap: nat) -> Seq<char> {
    spec_decimal(filled) + " B filled ("@ + spec_percent_text(filled, cap) + "%), "@
        + spec_decimal(init) + " B init ("@ + spec_percent_text(init, cap) + "%), "@
        + spec_decimal(cap) + " B total"@
}

/// Append the character of the decimal digit `d`.
pub fn append_digit(out: &mut String, d: usize)
    requires
        d < 10,
    ensures
        final(out)@ == old(out)@ + seq![digit_char(d as nat)],
{
    if d == 0 {
        proof {
            reveal_strlit("0");
        }
        out.append("0");
    } else if d == 1 {
        proof {
            reveal_strlit("1");
        }
        out.append("1");
    } else if d == 2 {
        proof {
            reveal_strlit("2");
        }
        out.append("2");
    } else if d == 3 {
        proof {
            reveal_strlit("3");
        }
        out.append("3");
    } else if d == 4 {
        proof {
            reveal_strlit("4");
        }
        out.append("4");
    } else if d == 5 {
        proof {
            reveal_strlit("5");
        }
        out.append("5");
    } else if d == 6 {
        proof {
            reveal_strlit("6");
        }
        out.append("6");
    } else if d == 7 {
        proof {
            reveal_strlit("7");
        }
        out.append("7");
    } else if d == 8 {
        proof {
            reveal_strlit("8");
        }
        out.append("8");
    } else {
        proof {
            reveal_strlit("9");
        }
        out.append("9");
    }
    proof {
        assert(final(out)@ =~= old(out)@ + seq![digit_char(d as nat)]);
    }
}

/// Append the decimal digits of `n`, most significant first.
pub fn append_decimal(out: &mut String, n: usize)
    ensures
        final(out)@ == old(out)@ + spec_decimal(n as nat),
    decreases n,
{
    if n < 10 {
        append_digit(out, n);
    } else {
        append_decimal(out, n / 10);
        append_digit(out, n % 10);
        proof {
            assert(final(out)@ =~= old(out)@ + spec_decimal(n as nat));
        }
    }
}

/// The share of `part` in `total` in tenths of a percent, rounded to the
/// nearest with ties to even; zero when `total` is zero.
pub fn permille(part: usize, total: usize) -> (r: usize)
    requires
        part <= total,
    ensures
        r == spec_permille(part as nat, total as nat),
        r <= 1000,
{
    if total == 0 {
        return 0;
    }
    let p: u128 = (part as u128) * 1000;
    let t: u128 = total as u128;
    let q: u128 = p / t;
    let rem: u128 = p % t;
    proof {
        lemma_mul_inequality(part as int, total as int, 1000);
        lemma_div_is_ordered(p as int, total as int * 1000, t as int);
        lemma_div_multiples_vanish(1000, t as int);
        assert(q <= 1000);
        if rem > 0 {
            lemma_mod_multiples_basic(1000, t as int);
            assert(part != total);
            lemma_mul_strict_inequality(part as int, total as int, 1000);
            lemma_multiply_divide_lt(p as int, t as int, 1000);
            assert(q <= 999);
        }
    }
    if 2 * rem > t {
        (q + 1) as usize
    } else if 2 * rem == t && q % 2 == 1 {
        (q + 1) as usize
    } else {
        q as usize
    }
}

/// Append the percentage of `part` in `total` with one decimal place.
pub fn append_percent(out: &mut String, part: usize, total: usize)
    requires
        part <= total,
    ensures
        final(out)@ == old(out)@ + spec_percent_text(part as nat, total as nat),
{
    let m = permille(part, total);
    append_decimal(out, m / 10);
    proof {
        reveal_strlit(".");
    }
    out.append(".");
    append_digit(out, m % 10);
    proof {
        assert(final(out)@ =~= old(out)@ + spec_percent_text(part as nat, total as nat));
    }
}

} // verus!
