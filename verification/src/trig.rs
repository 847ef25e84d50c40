//! Fixed-point trigonometry.
//!
//! Sine and cosine evaluate an odd polynomial on a quarter turn, folded
//! there by the exact quadrant symmetries of the micro-radian constants;
//! the two-argument arctangent evaluates an odd polynomial on a reduced
//! octant.  Both work in units of a million-millionth internally and
//! round once at the end, so the returned micro-unit values track the
//! true functions to within a few steps of the representation.  The spec
//! functions below state the value each executable function returns,
//! digit for digit.

use vstd::prelude::*;
use crate::fixed::FP_ONE;
use crate::fixed::FP_HALF_PI;
use crate::fixed::FP_PI;
use crate::fixed::FP_TAU;
use crate::fixed::FP_QUARTER_PI;
use crate::fixed::FP_FIELD_MAX;
use crate::fixed::reduce_angle;

verus! {

/// The fine internal scale of the polynomial evaluations: one unit in
/// million-millionths.
pub const FP_FINE: i64 = 1_000_000_000_000;

/// The tangent of an eighth turn in micro-units: the split point of the
/// arctangent's octant reduction.
pub const FP_OCTANT: i64 = 414_213;

/// The sine polynomial's coefficients: the alternating reciprocals of the
/// odd factorials, in fine units.
pub const SIN_C3: i64 = 166_666_666_667;

pub const SIN_C5: i64 = 8_333_333_333;

pub const SIN_C7: i64 = 198_412_698;

pub const SIN_C9: i64 = 2_755_732;

pub const SIN_C11: i64 = 25_052;

pub const SIN_C13: i64 = 161;

/// The arctangent polynomial's coefficients: the alternating reciprocals
/// of the odd numbers, in fine units.
pub const ATAN_C3: i64 = 333_333_333_333;

pub const ATAN_C5: i64 = 200_000_000_000;

pub const ATAN_C7: i64 = 142_857_142_857;

pub const ATAN_C9: i64 = 111_111_111_111;

pub const ATAN_C11: i64 = 90_909_090_909;

/// A scaled product stays within its bound: for `0 <= a <= amax` and
/// `0 <= b <= bmax` with `amax * bmax <= bound * FP_FINE`, the fine-unit
/// product `a * b / FP_FINE` lies in `[0, bound]`.
proof fn lemma_muldiv_le(a: int, b: int, amax: int, bmax: int, bound: int)
    requires
        0 <= a <= amax,
        0 <= b <= bmax,
        amax * bmax <= bound * (FP_FINE as int),
    ensures
        0 <= a * b / (FP_FINE as int) <= bound,
{
    let g = FP_FINE as int;
    assert(0 <= a * b <= amax * bmax) by (nonlinear_arith)
        requires
            0 <= a <= amax,
            0 <= b <= bmax,
    ;
    vstd::arithmetic::div_mod::lemma_div_pos_is_pos(a * b, g);
    vstd::arithmetic::div_mod::lemma_div_is_ordered(a * b, bound * g, g);
    vstd::arithmetic::div_mod::lemma_div_by_multiple(bound, g);
}

/// The sine of a reduced angle `r` in `[0, FP_HALF_PI]`: the odd Taylor
/// polynomial through the thirteenth power, evaluated by nested scaled
/// products in fine units, rounded to micro-units, and clamped to one.
pub open spec fn sin_poly(r: int) -> int {
    let g = FP_FINE as int;
    let xg = r * 1_000_000;
    let q = xg * xg / g;
    let a11 = SIN_C11 - q * SIN_C13 / g;
    let a9 = SIN_C9 - q * a11 / g;
    let a7 = SIN_C7 - q * a9 / g;
    let a5 = SIN_C5 - q * a7 / g;
    let a3 = SIN_C3 - q * a5 / g;
    let a1 = g - q * a3 / g;
    let v = (xg * a1 / g + 500_000) / 1_000_000;
    if v > FP_ONE {
        FP_ONE as int
    } else {
        v
    }
}

/// The library's sine of an angle in micro-radians: the reduced angle
/// folded onto a quarter turn by the exact symmetries of the constants.
pub open spec fn sin_fx(a: int) -> int {
    let r = a % (FP_TAU as int);
    if r <= FP_HALF_PI {
        sin_poly(r)
    } else if r <= FP_PI {
        sin_poly(FP_PI - r)
    } else if r <= FP_PI + FP_HALF_PI {
        -sin_poly(r - FP_PI)
    } else {
        -sin_poly(FP_TAU - r)
    }
}

/// The library's cosine: the sine shifted by a quarter turn.
pub open spec fn cos_fx(a: int) -> int {
    sin_fx(a + FP_HALF_PI)
}

/// The arctangent of a reduced ratio `u` (at most just past `FP_OCTANT`):
/// the odd Taylor polynomial through the eleventh power, evaluated by
/// nested scaled products in fine units, rounded to micro-units, and
/// clamped to a quarter turn.
pub open spec fn atan_poly(u: int) -> int {
    let g = FP_FINE as int;
    let ug = u * 1_000_000;
    let q = ug * ug / g;
    let a9 = ATAN_C9 - q * ATAN_C11 / g;
    let a7 = ATAN_C7 - q * a9 / g;
    let a5 = ATAN_C5 - q * a7 / g;
    let a3 = ATAN_C3 - q * a5 / g;
    let a1 = g - q * a3 / g;
    let v = (ug * a1 / g + 500_000) / 1_000_000;
    if v > FP_QUARTER_PI {
        FP_QUARTER_PI as int
    } else {
        v
    }
}

/// The arctangent of a ratio `z` in `[0, FP_ONE]`: evaluated directly
/// below the octant split, and through the half-angle identity
/// `atan(z) = pi/4 - atan((1 - z) / (1 + z))` above it, with the reduced
/// ratio rounded to the nearest micro-unit.
pub open spec fn atan_unit(z: int) -> int {
    if z <= FP_OCTANT {
        atan_poly(z)
    } else {
        FP_QUARTER_PI - atan_poly(
            ((FP_ONE - z) * FP_ONE * 2 + (FP_ONE + z)) / (2 * (FP_ONE + z)),
        )
    }
}

/// The library's two-argument arctangent of `y / x`, safe on every input:
/// the angle of the point `(x, y)`, in `[-FP_PI, FP_PI]`, and `0` for the
/// origin.  The ratio of the smaller magnitude to the larger is rounded
/// to the nearest micro-unit before the octant reduction.
pub open spec fn atan2_fx(y: int, x: int) -> int {
    let ax = if x >= 0 {
        x
    } else {
        -x
    };
    let ay = if y >= 0 {
        y
    } else {
        -y
    };
    let base = if ax == 0 && ay == 0 {
        0
    } else if ay <= ax {
        atan_unit((2 * ay * FP_ONE + ax) / (2 * ax))
    } else {
        FP_HALF_PI - atan_unit((2 * ax * FP_ONE + ay) / (2 * ay))
    };
    let t = if x >= 0 {
        base
    } else {
        FP_PI - base
    };
    if y >= 0 {
        t
    } else {
        -t
    }
}

/// On a quarter turn the sine polynomial stays within one unit, and all
/// its nested accumulators stay within their coefficients.
pub proof fn lemma_sin_poly_range(r: int)
    requires
        0 <= r <= FP_HALF_PI,
    ensures
        0 <= sin_poly(r) <= FP_ONE,
{
    let g = FP_FINE as int;
    let xg = r * 1_000_000;
    let q = xg * xg / g;
    assert(0 <= xg <= 1_570_796_000_000int);
    lemma_muldiv_le(xg, xg, 1_570_796_000_000int, 1_570_796_000_000int, 2_467_400_073_616int);
    lemma_muldiv_le(q, SIN_C13 as int, 2_467_400_073_616int, 161, 398);
    let a11 = SIN_C11 - q * SIN_C13 / g;
    lemma_muldiv_le(q, a11, 2_467_400_073_616int, 25_052int, 61_814int);
    let a9 = SIN_C9 - q * a11 / g;
    lemma_muldiv_le(q, a9, 2_467_400_073_616int, 2_755_732int, 6_800_000int);
    let a7 = SIN_C7 - q * a9 / g;
    lemma_muldiv_le(q, a7, 2_467_400_073_616int, 198_412_698int, 489_600_000int);
    let a5 = SIN_C5 - q * a7 / g;
    lemma_muldiv_le(q, a5, 2_467_400_073_616int, 8_333_333_333int, 20_562_000_000int);
    let a3 = SIN_C3 - q * a5 / g;
    lemma_muldiv_le(q, a3, 2_467_400_073_616int, 166_666_666_667int, 411_234_000_000int);
    let a1 = g - q * a3 / g;
    lemma_muldiv_le(xg, a1, 1_570_796_000_000int, 1_000_000_000_000int, 1_570_796_000_000int);
    vstd::arithmetic::div_mod::lemma_div_pos_is_pos(xg * a1 / g + 500_000, 1_000_000int);
}

/// The sine of any angle stays within one unit.
pub proof fn lemma_sin_fx_range(a: int)
    ensures
        -(FP_ONE as int) <= sin_fx(a) <= FP_ONE as int,
{
    vstd::arithmetic::div_mod::lemma_mod_bound(a, FP_TAU as int);
    let r = a % (FP_TAU as int);
    if r <= FP_HALF_PI {
        lemma_sin_poly_range(r);
    } else if r <= FP_PI {
        lemma_sin_poly_range(FP_PI - r);
    } else if r <= FP_PI + FP_HALF_PI {
        lemma_sin_poly_range(r - FP_PI);
    } else {
        lemma_sin_poly_range(FP_TAU - r);
    }
}

/// The cosine of any angle stays within one unit.
pub proof fn lemma_cos_fx_range(a: int)
    ensures
        -(FP_ONE as int) <= cos_fx(a) <= FP_ONE as int,
{
    lemma_sin_fx_range(a + FP_HALF_PI);
}

/// On the reduced octant the arctangent polynomial stays within a
/// quarter turn.
pub proof fn lemma_atan_poly_range(u: int)
    requires
        0 <= u <= 415_000,
    ensures
        0 <= atan_poly(u) <= FP_QUARTER_PI,
{
    let g = FP_FINE as int;
    let ug = u * 1_000_000;
    let q = ug * ug / g;
    assert(0 <= ug <= 415_000_000_000int);
    lemma_muldiv_le(ug, ug, 415_000_000_000int, 415_000_000_000int, 172_225_000_000int);
    lemma_muldiv_le(q, ATAN_C11 as int, 172_225_000_000int, 90_909_090_909int, 15_657_000_000int);
    let a9 = ATAN_C9 - q * ATAN_C11 / g;
    lemma_muldiv_le(q, a9, 172_225_000_000int, 111_111_111_111int, 19_137_000_000int);
    let a7 = ATAN_C7 - q * a9 / g;
    lemma_muldiv_le(q, a7, 172_225_000_000int, 142_857_142_857int, 24_604_000_000int);
    let a5 = ATAN_C5 - q * a7 / g;
    lemma_muldiv_le(q, a5, 172_225_000_000int, 200_000_000_000int, 34_446_000_000int);
    let a3 = ATAN_C3 - q * a5 / g;
    lemma_muldiv_le(q, a3, 172_225_000_000int, 333_333_333_333int, 57_409_000_000int);
    let a1 = g - q * a3 / g;
    lemma_muldiv_le(ug, a1, 415_000_000_000int, 1_000_000_000_000int, 415_000_000_000int);
    vstd::arithmetic::div_mod::lemma_div_pos_is_pos(ug * a1 / g + 500_000, 1_000_000int);
}

/// The reduced ratio of the octant split stays within the arctangent
/// polynomial's domain: for `FP_OCTANT < z <= FP_ONE` the half-angle
/// ratio lies in `[0, 415_000]`.
pub proof fn lemma_octant_ratio_range(z: int)
    requires
        FP_OCTANT < z <= FP_ONE,
    ensures
        0 <= ((FP_ONE - z) * FP_ONE * 2 + (FP_ONE + z)) / (2 * (FP_ONE + z)) <= 415_000,
{
    let num = (FP_ONE - z) * FP_ONE * 2 + (FP_ONE + z);
    let den = 2 * (FP_ONE + z);
    assert(0 <= num && 0 < den && num <= 415_000 * den) by (nonlinear_arith)
        requires
            414_213 < z <= 1_000_000,
            num == (1_000_000 - z) * 1_000_000 * 2 + (1_000_000 + z),
            den == 2 * (1_000_000 + z),
            FP_ONE == 1_000_000i64,
    ;
    vstd::arithmetic::div_mod::lemma_div_pos_is_pos(num, den);
    vstd::arithmetic::div_mod::lemma_div_is_ordered(num, 415_000 * den, den);
    vstd::arithmetic::div_mod::lemma_div_by_multiple(415_000, den);
}

/// Core of the sine: the polynomial on a quarter turn.
fn sin_core(r: i64) -> (s: i64)
    requires
        0 <= r <= FP_HALF_PI,
    ensures
        s as int == sin_poly(r as int),
        0 <= s <= FP_ONE,
{
    proof {
        lemma_sin_poly_range(r as int);
        let g = FP_FINE as int;
        let xg = (r as int) * 1_000_000;
        let q = xg * xg / g;
        lemma_muldiv_le(xg, xg, 1_570_796_000_000int, 1_570_796_000_000int, 2_467_400_073_616int);
        lemma_muldiv_le(q, SIN_C13 as int, 2_467_400_073_616int, 161, 398);
        let a11 = SIN_C11 - q * SIN_C13 / g;
        lemma_muldiv_le(q, a11, 2_467_400_073_616int, 25_052int, 61_814int);
        let a9 = SIN_C9 - q * a11 / g;
        lemma_muldiv_le(q, a9, 2_467_400_073_616int, 2_755_732int, 6_800_000int);
        let a7 = SIN_C7 - q * a9 / g;
        lemma_muldiv_le(q, a7, 2_467_400_073_616int, 198_412_698int, 489_600_000int);
        let a5 = SIN_C5 - q * a7 / g;
        lemma_muldiv_le(q, a5, 2_467_400_073_616int, 8_333_333_333int, 20_562_000_000int);
        let a3 = SIN_C3 - q * a5 / g;
        lemma_muldiv_le(q, a3, 2_467_400_073_616int, 166_666_666_667int, 411_234_000_000int);
        let a1 = g - q * a3 / g;
        lemma_muldiv_le(xg, a1, 1_570_796_000_000int, 1_000_000_000_000int, 1_570_796_000_000int);
    }
    let xg: u128 = (r as u128) * 1_000_000;
    let q: u128 = (xg * xg) / 1_000_000_000_000;
    let a11: u128 = (SIN_C11 as u128) - (q * (SIN_C13 as u128)) / 1_000_000_000_000;
    let a9: u128 = (SIN_C9 as u128) - (q * a11) / 1_000_000_000_000;
    let a7: u128 = (SIN_C7 as u128) - (q * a9) / 1_000_000_000_000;
    let a5: u128 = (SIN_C5 as u128) - (q * a7) / 1_000_000_000_000;
    let a3: u128 = (SIN_C3 as u128) - (q * a5) / 1_000_000_000_000;
    let a1: u128 = 1_000_000_000_000 - (q * a3) / 1_000_000_000_000;
    let v: u128 = ((xg * a1) / 1_000_000_000_000 + 500_000) / 1_000_000;
    if v > 1_000_000 {
        FP_ONE
    } else {
        v as i64
    }
}

/// The fixed-point sine of an angle in micro-radians.
pub fn sin_fp(a: i64) -> (s: i64)
    ensures
        s as int == sin_fx(a as int),
        -FP_ONE <= s <= FP_ONE,
{
    let r = reduce_angle(a);
    if r <= FP_HALF_PI {
        sin_core(r)
    } else if r <= FP_PI {
        sin_core(FP_PI - r)
    } else if r <= FP_PI + FP_HALF_PI {
        let v = sin_core(r - FP_PI);
        -v
    } else {
        let v = sin_core(FP_TAU - r);
        -v
    }
}

/// The fixed-point cosine of an angle in micro-radians.
pub fn cos_fp(a: i64) -> (s: i64)
    requires
        a + FP_HALF_PI <= i64::MAX as int,
    ensures
        s as int == cos_fx(a as int),
        -FP_ONE <= s <= FP_ONE,
{
    sin_fp(a + FP_HALF_PI)
}

/// Core of the arctangent: the polynomial on the reduced octant.
fn atan_core(u: i64) -> (r: i64)
    requires
        0 <= u <= 415_000,
    ensures
        r as int == atan_poly(u as int),
        0 <= r <= FP_QUARTER_PI,
{
    proof {
        lemma_atan_poly_range(u as int);
        let g = FP_FINE as int;
        let ug = (u as int) * 1_000_000;
        let q = ug * ug / g;
        lemma_muldiv_le(ug, ug, 415_000_000_000int, 415_000_000_000int, 172_225_000_000int);
        lemma_muldiv_le(
            q,
            ATAN_C11 as int,
            172_225_000_000int,
            90_909_090_909int,
            15_657_000_000int,
        );
        let a9 = ATAN_C9 - q * ATAN_C11 / g;
        lemma_muldiv_le(q, a9, 172_225_000_000int, 111_111_111_111int, 19_137_000_000int);
        let a7 = ATAN_C7 - q * a9 / g;
        lemma_muldiv_le(q, a7, 172_225_000_000int, 142_857_142_857int, 24_604_000_000int);
        let a5 = ATAN_C5 - q * a7 / g;
        lemma_muldiv_le(q, a5, 172_225_000_000int, 200_000_000_000int, 34_446_000_000int);
        let a3 = ATAN_C3 - q * a5 / g;
        lemma_muldiv_le(q, a3, 172_225_000_000int, 333_333_333_333int, 57_409_000_000int);
        let a1 = g - q * a3 / g;
        lemma_muldiv_le(ug, a1, 415_000_000_000int, 1_000_000_000_000int, 415_000_000_000int);
    }
    let ug: u128 = (u as u128) * 1_000_000;
    let q: u128 = (ug * ug) / 1_000_000_000_000;
    let a9: u128 = (ATAN_C9 as u128) - (q * (ATAN_C11 as u128)) / 1_000_000_000_000;
    let a7: u128 = (ATAN_C7 as u128) - (q * a9) / 1_000_000_000_000;
    let a5: u128 = (ATAN_C5 as u128) - (q * a7) / 1_000_000_000_000;
    let a3: u128 = (ATAN_C3 as u128) - (q * a5) / 1_000_000_000_000;
    let a1: u128 = 1_000_000_000_000 - (q * a3) / 1_000_000_000_000;
    let v: u128 = ((ug * a1) / 1_000_000_000_000 + 500_000) / 1_000_000;
    if v > 785_398 {
        FP_QUARTER_PI
    } else {
        v as i64
    }
}

/// The arctangent of a ratio on the unit interval, through the octant
/// reduction.
fn atan_unit_core(z: i64) -> (r: i64)
    requires
        0 <= z <= FP_ONE,
    ensures
        r as int == atan_unit(z as int),
        0 <= r <= FP_QUARTER_PI,
{
    if z <= FP_OCTANT {
        atan_core(z)
    } else {
        proof {
            lemma_octant_ratio_range(z as int);
        }
        let num: u128 = ((FP_ONE - z) as u128) * 1_000_000 * 2 + ((FP_ONE + z) as u128);
        let den: u128 = 2 * ((FP_ONE + z) as u128);
        let u: u128 = num / den;
        let au = atan_core(u as i64);
        FP_QUARTER_PI - au
    }
}

/// The fixed-point two-argument arctangent: the angle of the point
/// `(x, y)` in micro-radians, in `[-FP_PI, FP_PI]`, and `0` at the origin.
pub fn atan2_fp(y: i64, x: i64) -> (r: i64)
    requires
        -FP_FIELD_MAX <= x <= FP_FIELD_MAX,
        -FP_FIELD_MAX <= y <= FP_FIELD_MAX,
    ensures
        r as int == atan2_fx(y as int, x as int),
        -FP_PI <= r <= FP_PI,
{
    let ax: i64 = if x >= 0 {
        x
    } else {
        -x
    };
    let ay: i64 = if y >= 0 {
        y
    } else {
        -y
    };
    let base: i64 = if ax == 0 && ay == 0 {
        0
    } else if ay <= ax {
        proof {
            assert(2 * (ay as int) * (FP_ONE as int) + ax < (2 * (ax as int)) * (FP_ONE + 1))
                by (nonlinear_arith)
                requires
                    0 <= ay as int <= ax as int,
                    1 <= ax as int,
                    FP_ONE == 1_000_000i64,
            ;
            vstd::arithmetic::div_mod::lemma_multiply_divide_lt(
                2 * (ay as int) * (FP_ONE as int) + ax,
                2 * (ax as int),
                FP_ONE + 1,
            );
            vstd::arithmetic::div_mod::lemma_div_pos_is_pos(
                2 * (ay as int) * (FP_ONE as int) + ax,
                2 * (ax as int),
            );
        }
        let z: u128 = (2 * (ay as u128) * 1_000_000 + (ax as u128)) / (2 * (ax as u128));
        atan_unit_core(z as i64)
    } else {
        proof {
            assert(2 * (ax as int) * (FP_ONE as int) + ay < (2 * (ay as int)) * (FP_ONE + 1))
                by (nonlinear_arith)
                requires
                    0 <= ax as int <= ay as int,
                    1 <= ay as int,
                    FP_ONE == 1_000_000i64,
            ;
            vstd::arithmetic::div_mod::lemma_multiply_divide_lt(
                2 * (ax as int) * (FP_ONE as int) + ay,
                2 * (ay as int),
                FP_ONE + 1,
            );
            vstd::arithmetic::div_mod::lemma_div_pos_is_pos(
                2 * (ax as int) * (FP_ONE as int) + ay,
                2 * (ay as int),
            );
        }
        let z: u128 = (2 * (ax as u128) * 1_000_000 + (ay as u128)) / (2 * (ay as u128));
        let au = atan_unit_core(z as i64);
        FP_HALF_PI - au
    };
    let t: i64 = if x >= 0 {
        base
    } else {
        FP_PI - base
    };
    if y >= 0 {
        t
    } else {
        -t
    }
}

} // verus!
