//! Fixed-point scalars.
//!
//! A scalar is an `i64` counting micro-units: `FP_ONE` raw steps make one
//! unit.  Angles are micro-radians.  The helpers here give the executable
//! arithmetic (truncating scaled products and quotients, integer square
//! root, angle reduction) together with the spec-level functions that the
//! rest of the library states its contracts with.

use vstd::prelude::*;

verus! {

/// Number of raw fixed-point steps in one unit.
pub const FP_ONE: i64 = 1_000_000;

/// Half pi in micro-radians, rounded to the nearest integer.
pub const FP_HALF_PI: i64 = 1_570_796;

/// Pi in micro-radians; kept as an exact multiple of `FP_HALF_PI` so that
/// quadrant folds in the trigonometric approximations are exact.
pub const FP_PI: i64 = 3_141_592;

/// A full turn in micro-radians, exactly `2 * FP_PI`.
pub const FP_TAU: i64 = 6_283_184;

/// A quarter pi in micro-radians, exactly `FP_HALF_PI / 2`.
pub const FP_QUARTER_PI: i64 = 785_398;

/// Largest coordinate magnitude accepted when a vector is built: one
/// million units, far beyond any canvas, and small enough that every
/// derived quantity fits comfortably in an `i64`.
pub const FP_COORD_MAX: i64 = 2_800_000_000_000;

/// Bound kept by every coordinate and length field of a well-formed vector.
pub const FP_FIELD_MAX: i64 = 4_000_000_000_000;

/// Largest rotation step the transforms accept, leaving headroom in an
/// `i64` for the reduced argument arithmetic.
pub const FP_ANGLE_MAX: i64 = 9_000_000_000_000_000_000;

/// The factor a scaling actually applies: a zero factor is treated as an
/// invalid no-op and replaced by one.
pub open spec fn scale_factor(c: int) -> int {
    if c == 0 {
        1
    } else {
        c
    }
}

/// Truncating (round-toward-zero) division of `a` by a positive `d`;
/// this is the quotient the executable code computes on magnitudes.
pub open spec fn tdiv(a: int, d: int) -> int {
    if a >= 0 {
        a / d
    } else {
        -((-a) / d)
    }
}

/// The fixed-point product: `a * b` rescaled back to micro-units,
/// rounded toward zero.
pub open spec fn fmul(a: int, b: int) -> int {
    tdiv(a * b, FP_ONE as int)
}

/// `r` is the integer square root of `n`, rounded down.
pub open spec fn is_isqrt(n: int, r: int) -> bool {
    &&& 0 <= r
    &&& r * r <= n
    &&& n < (r + 1) * (r + 1)
}

/// The integer square root of `n`, rounded down.
pub open spec fn isqrt_of(n: int) -> int {
    choose|r: int| is_isqrt(n, r)
}

/// The fixed-point length of the vector `(x, y)`: the integer square root
/// of `x * x + y * y`, which is the micro-unit norm rounded down.
pub open spec fn fnorm(x: int, y: int) -> int {
    isqrt_of(x * x + y * y)
}

/// Two integer square roots of the same number agree.
pub proof fn lemma_isqrt_unique(n: int, r1: int, r2: int)
    requires
        is_isqrt(n, r1),
        is_isqrt(n, r2),
    ensures
        r1 == r2,
{
    if r1 < r2 {
        assert((r1 + 1) * (r1 + 1) <= r2 * r2) by (nonlinear_arith)
            requires
                0 <= r1,
                r1 < r2,
        ;
    }
    if r2 < r1 {
        assert((r2 + 1) * (r2 + 1) <= r1 * r1) by (nonlinear_arith)
            requires
                0 <= r2,
                r2 < r1,
        ;
    }
}

/// Every nonnegative number has an integer square root, and `isqrt_of`
/// denotes it.
pub proof fn lemma_isqrt_exists(n: nat)
    ensures
        is_isqrt(n as int, isqrt_of(n as int)),
    decreases n,
{
    if n == 0 {
        assert(is_isqrt(0, 0));
    } else {
        lemma_isqrt_exists((n - 1) as nat);
        let p = isqrt_of(n - 1);
        assert(is_isqrt(n - 1, p));
        if n < (p + 1) * (p + 1) {
            assert(is_isqrt(n as int, p));
        } else {
            assert((p + 1) * (p + 1) <= n);
            assert(n - 1 < (p + 1) * (p + 1));
            assert(n < (p + 2) * (p + 2)) by (nonlinear_arith)
                requires
                    0 <= p,
                    n <= (p + 1) * (p + 1),
            ;
            assert(is_isqrt(n as int, p + 1));
        }
    }
    assert(exists|r: int| is_isqrt(n as int, r));
}

/// A witness for an integer square root pins down `isqrt_of`.
pub proof fn lemma_isqrt_is(n: int, r: int)
    requires
        is_isqrt(n, r),
    ensures
        isqrt_of(n) == r,
{
    assert(is_isqrt(n, isqrt_of(n)));
    lemma_isqrt_unique(n, isqrt_of(n), r);
}

/// Magnitudes multiply: `|a| * |b| == |a * b|`.
pub proof fn lemma_abs_mul(a: int, b: int)
    ensures
        vstd::math::abs(a) * vstd::math::abs(b) == vstd::math::abs(a * b),
{
    assert(vstd::math::abs(a) * vstd::math::abs(b) == vstd::math::abs(a * b)) by (nonlinear_arith);
}

/// Truncating division shrinks magnitudes: `|tdiv(a, d)| <= |a| / d`.
pub proof fn lemma_tdiv_abs(a: int, d: int)
    requires
        d > 0,
    ensures
        vstd::math::abs(tdiv(a, d)) as int == vstd::math::abs(a) as int / d,
        vstd::math::abs(tdiv(a, d)) <= vstd::math::abs(a),
{
    vstd::arithmetic::div_mod::lemma_div_nonincreasing(vstd::math::abs(a) as int, d);
    vstd::arithmetic::div_mod::lemma_div_is_ordered(0, vstd::math::abs(a) as int, d);
}

/// A scaled product by a factor of at most one unit cannot grow:
/// if `|c| <= FP_ONE` then `|fmul(l, c)| <= |l|`.
pub proof fn lemma_fmul_contracts(l: int, c: int)
    requires
        -(FP_ONE as int) <= c <= FP_ONE as int,
    ensures
        vstd::math::abs(fmul(l, c)) <= vstd::math::abs(l),
{
    let s = FP_ONE as int;
    lemma_abs_mul(l, c);
    assert(vstd::math::abs(l) * vstd::math::abs(c) <= vstd::math::abs(l) * s) by (nonlinear_arith)
        requires
            0 <= vstd::math::abs(c) <= s,
            0 <= vstd::math::abs(l),
    ;
    lemma_tdiv_abs(l * c, s);
    vstd::arithmetic::div_mod::lemma_div_is_ordered(
        vstd::math::abs(l * c) as int,
        vstd::math::abs(l) * s,
        s,
    );
    vstd::arithmetic::div_mod::lemma_div_by_multiple(vstd::math::abs(l) as int, s);
}

/// The norm is at most the sum of the coordinate magnitudes.
pub proof fn lemma_isqrt_le_abs_sum(x: int, y: int, l: int)
    requires
        is_isqrt(x * x + y * y, l),
    ensures
        l <= vstd::math::abs(x) + vstd::math::abs(y),
{
    assert(l <= vstd::math::abs(x) + vstd::math::abs(y)) by (nonlinear_arith)
        requires
            0 <= l,
            l * l <= x * x + y * y,
            vstd::math::abs(x) >= x && vstd::math::abs(x) >= -x,
            vstd::math::abs(y) >= y && vstd::math::abs(y) >= -y,
    ;
}

/// Truncating division of an `i128` by one million, as executable code.
pub fn i128_div_unit(n: i128) -> (r: i128)
    requires
        n > i128::MIN,
    ensures
        r as int == tdiv(n as int, FP_ONE as int),
{
    if n >= 0 {
        let q: u128 = (n as u128) / 1_000_000u128;
        q as i128
    } else {
        let m: u128 = (-n) as u128;
        let q: u128 = m / 1_000_000u128;
        -(q as i128)
    }
}

/// The fixed-point product `fmul(a, b)`, computed through a 128-bit
/// intermediate so the scaling never overflows.
pub fn fp_mul(a: i64, b: i64) -> (r: i64)
    requires
        -(i64::MAX as int) <= fmul(a as int, b as int) <= i64::MAX as int,
    ensures
        r as int == fmul(a as int, b as int),
{
    let p: i128 = (a as i128) * (b as i128);
    proof {
        assert(p > i128::MIN) by (nonlinear_arith)
            requires
                p == (a as int) * (b as int),
                -0x8000000000000000 <= a as int <= 0x7fffffffffffffff,
                -0x8000000000000000 <= b as int <= 0x7fffffffffffffff,
        ;
    }
    let q: i128 = i128_div_unit(p);
    q as i64
}

/// The integer square root of `n`, rounded down, by binary search.
pub fn isqrt(n: u128) -> (r: u64)
    requires
        n < 1329227995784915872903807060280344576u128,  // 2^120
    ensures
        is_isqrt(n as int, r as int),
        isqrt_of(n as int) == r as int,
{
    let mut lo: u64 = 0;
    let mut hi: u64 = 1_152_921_504_606_846_976u64;  // 2^60
    proof {
        assert(1152921504606846976int * 1152921504606846976int
            == 1329227995784915872903807060280344576int) by (nonlinear_arith);
    }
    while lo + 1 < hi
        invariant
            0 <= lo < hi <= 1_152_921_504_606_846_976u64,
            (lo as int) * (lo as int) <= n as int,
            (n as int) < (hi as int) * (hi as int),
        decreases hi - lo,
    {
        let mid: u64 = lo + (hi - lo) / 2;
        proof {
            assert((mid as int) * (mid as int) <= 1329227995784915872903807060280344576int)
                by (nonlinear_arith)
                requires
                    0 <= mid as int <= 1152921504606846976int,
            ;
        }
        let sq: u128 = (mid as u128) * (mid as u128);
        if sq <= n {
            lo = mid;
        } else {
            hi = mid;
        }
    }
    proof {
        assert(is_isqrt(n as int, lo as int));
        lemma_isqrt_is(n as int, lo as int);
    }
    lo
}

/// Reduce an angle to `[0, FP_TAU)`: the Euclidean remainder modulo a
/// full turn.
pub fn reduce_angle(a: i64) -> (r: i64)
    ensures
        r as int == (a as int) % (FP_TAU as int),
        0 <= r < FP_TAU,
{
    let t: u128 = 6_283_184u128;
    if a >= 0 {
        let rm: u64 = (a as u64) % 6_283_184u64;
        rm as i64
    } else {
        let n: u128 = (-(a as i128)) as u128;
        let rm: u128 = n % t;
        proof {
            let ti = FP_TAU as int;
            let ni = n as int;
            let q = ni / ti;
            vstd::arithmetic::div_mod::lemma_fundamental_div_mod(ni, ti);
            if rm == 0 {
                assert(a as int == (-q) * ti + 0) by (nonlinear_arith)
                    requires
                        a as int == -ni,
                        ni == ti * q + 0,
                ;
                vstd::arithmetic::div_mod::lemma_fundamental_div_mod_converse(a as int, ti, -q, 0);
            } else {
                assert(a as int == (-q - 1) * ti + (ti - rm)) by (nonlinear_arith)
                    requires
                        a as int == -ni,
                        ni == ti * q + rm as int,
                ;
                vstd::arithmetic::div_mod::lemma_fundamental_div_mod_converse(
                    a as int,
                    ti,
                    -q - 1,
                    ti - rm,
                );
            }
        }
        if rm == 0 {
            0
        } else {
            (t - rm) as i64
        }
    }
}

} // verus!
