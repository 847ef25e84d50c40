//! Decimal text for fixed-point scalars.
//!
//! Whole numbers render without a fractional part (`"1"`), other values
//! with a dot and up to six fractional digits, trailing zeros removed
//! (`"0.5"`), matching how the exported SVG writes coordinates.

use vstd::prelude::*;
use vstd::string::StringExecFns;
use crate::fixed::FP_ONE;

verus! {

/// The decimal digit character for `d` in `0 .. 10`.
pub open spec fn digit_char(d: int) -> char {
    if d == 0 {
        '0'
    } else if d == 1 {
        '1'
    } else if d == 2 {
        '2'
    } else if d == 3 {
        '3'
    } else if d == 4 {
        '4'
    } else if d == 5 {
        '5'
    } else if d == 6 {
        '6'
    } else if d == 7 {
        '7'
    } else if d == 8 {
        '8'
    } else {
        '9'
    }
}

/// The decimal digits of a nonnegative number, most significant first.
pub open spec fn dec_str(n: int) -> Seq<char>
    decreases n,
{
    if n < 10 {
        seq![digit_char(n)]
    } else {
        dec_str(n / 10).push(digit_char(n % 10))
    }
}

/// Ten to the `k`.
pub open spec fn pow10(k: nat) -> int
    decreases k,
{
    if k == 0 {
        1
    } else {
        10 * pow10((k - 1) as nat)
    }
}

/// The fractional digits of `f` rendered in a field of `width` digits,
/// with trailing zeros removed: empty once the rest is zero, else the
/// leading digit of the field followed by the remaining narrower field.
pub open spec fn frac_str(f: int, width: nat) -> Seq<char>
    decreases width,
{
    if width == 0 || f <= 0 {
        Seq::<char>::empty()
    } else {
        seq![digit_char(f / pow10((width - 1) as nat))] + frac_str(
            f % pow10((width - 1) as nat),
            (width - 1) as nat,
        )
    }
}

/// The decimal text of the fixed-point scalar `v`: optional minus sign,
/// whole part, and, unless the fractional part is zero, a dot and the
/// fractional digits with trailing zeros removed.
pub open spec fn fixed_str(v: int) -> Seq<char> {
    let m = if v >= 0 {
        v
    } else {
        -v
    };
    let sign = if v < 0 {
        seq!['-']
    } else {
        Seq::<char>::empty()
    };
    if m % (FP_ONE as int) == 0 {
        sign + dec_str(m / (FP_ONE as int))
    } else {
        sign + dec_str(m / (FP_ONE as int)) + seq!['.'] + frac_str(m % (FP_ONE as int), 6)
    }
}

/// The text of one decimal digit.
fn digit_lit(d: u64) -> (s: &'static str)
    requires
        d < 10,
    ensures
        s@ == seq![digit_char(d as int)],
{
    proof {
        reveal_strlit("0");
        reveal_strlit("1");
        reveal_strlit("2");
        reveal_strlit("3");
        reveal_strlit("4");
        reveal_strlit("5");
        reveal_strlit("6");
        reveal_strlit("7");
        reveal_strlit("8");
        reveal_strlit("9");
    }
    let s: &'static str = if d == 0 {
        "0"
    } else if d == 1 {
        "1"
    } else if d == 2 {
        "2"
    } else if d == 3 {
        "3"
    } else if d == 4 {
        "4"
    } else if d == 5 {
        "5"
    } else if d == 6 {
        "6"
    } else if d == 7 {
        "7"
    } else if d == 8 {
        "8"
    } else {
        "9"
    };
    proof {
        assert(s@ =~= seq![digit_char(d as int)]);
    }
    s
}

/// The decimal text of a nonnegative number.
pub fn u64_to_string(n: u64) -> (s: String)
    ensures
        s@ == dec_str(n as int),
    decreases n,
{
    if n < 10 {
        String::from_str(digit_lit(n))
    } else {
        let mut s = u64_to_string(n / 10);
        s.append(digit_lit(n % 10));
        proof {
            assert(s@ =~= dec_str(n as int));
        }
        s
    }
}

/// Ten to the `k`, as executable code.
fn pow10_exec(k: u64) -> (p: u64)
    requires
        k <= 6,
    ensures
        p as int == pow10(k as nat),
{
    proof {
        reveal_with_fuel(pow10, 8);
    }
    if k == 0 {
        1
    } else if k == 1 {
        10
    } else if k == 2 {
        100
    } else if k == 3 {
        1_000
    } else if k == 4 {
        10_000
    } else if k == 5 {
        100_000
    } else {
        1_000_000
    }
}

/// The fractional digits of `f` in a field of `width` digits, trailing
/// zeros removed.
fn frac_rec(f: u64, width: u64) -> (s: String)
    requires
        width <= 6,
        f < pow10(width as nat),
    ensures
        s@ == frac_str(f as int, width as nat),
    decreases width,
{
    if width == 0 || f == 0 {
        String::new()
    } else {
        let p: u64 = pow10_exec(width - 1);
        proof {
            reveal_with_fuel(pow10, 8);
            assert(pow10(width as nat) == 10 * (p as int));
            vstd::arithmetic::div_mod::lemma_div_is_ordered(f as int, 10 * (p as int) - 1, p as int);
            vstd::arithmetic::div_mod::lemma_mod_bound(f as int, p as int);
            assert((10 * (p as int) - 1) / (p as int) == 9) by (nonlinear_arith)
                requires
                    1 <= p as int,
            ;
        }
        let d: u64 = f / p;
        let rest: u64 = f % p;
        let mut s = String::from_str(digit_lit(d));
        let tail = frac_rec(rest, width - 1);
        s.append(tail.as_str());
        proof {
            assert(s@ =~= frac_str(f as int, width as nat));
        }
        s
    }
}

/// The decimal text of the fixed-point scalar `v`.
pub fn fixed_to_string(v: i64) -> (s: String)
    ensures
        s@ == fixed_str(v as int),
{
    proof {
        reveal_strlit("-");
        reveal_strlit(".");
    }
    let m: u64 = if v >= 0 {
        v as u64
    } else {
        (-(v as i128)) as u64
    };
    let whole: u64 = m / 1_000_000;
    let frac: u64 = m % 1_000_000;
    let ip = u64_to_string(whole);
    let mut s = if v < 0 {
        let mut t = String::from_str("-");
        t.append(ip.as_str());
        t
    } else {
        ip
    };
    if frac != 0 {
        proof {
            reveal_with_fuel(pow10, 8);
        }
        s.append(".");
        let f = frac_rec(frac, 6);
        s.append(f.as_str());
    }
    proof {
        assert(s@ =~= fixed_str(v as int));
    }
    s
}

} // verus!
