//! Two-dimensional vectors.
//!
//! A `Vector2` carries its cartesian coordinates together with a cached
//! polar form (`len`, `arg`).  Every mutating operation states exactly
//! how it recomputes the cache.

use vstd::prelude::*;
use crate::fixed::FP_ONE;
use crate::fixed::FP_COORD_MAX;
use crate::fixed::FP_FIELD_MAX;
use crate::fixed::tdiv;
use crate::fixed::fmul;
use crate::fixed::fnorm;
use crate::fixed::is_isqrt;
use crate::fixed::isqrt;
use crate::fixed::fp_mul;
use crate::fixed::i128_div_unit;
use crate::fixed::lemma_tdiv_abs;
use crate::fixed::lemma_fmul_contracts;
use crate::fixed::scale_factor;
use crate::trig::sin_fx;
use crate::trig::cos_fx;
use crate::trig::atan2_fx;
use crate::trig::sin_fp;
use crate::trig::cos_fp;
use crate::trig::atan2_fp;
use crate::fixed::FP_PI;
use crate::fixed::FP_HALF_PI;
use crate::numfmt::fixed_str;
use crate::numfmt::fixed_to_string;
use vstd::string::StringExecFns;

verus! {

/// Tolerance, in raw fixed-point steps, of the approximate comparison of
/// two vectors: a thousandth of a unit, comfortably above the residue the
/// rounded trigonometry leaves on scene-scale rotations.  The comparison
/// is deliberately approximate and therefore not transitive.
pub const FP_EPS: i64 = 1_000;

/// Largest coordinate magnitude accepted by the dot and cross products,
/// so that their scaled results fit in an `i64`.
pub const FP_DOT_MAX: i64 = 2_000_000_000_000;

/// A vector in 2d cartesian space, with cached magnitude and angle.
#[derive(Clone, Copy, Debug, PartialEq, Eq, Structural)]
pub struct Vector2 {
    pub x: i64,
    pub y: i64,
    pub len: i64,
    pub arg: i64,
}

impl Vector2 {
    /// Every field of a vector the library built stays within this bound.
    pub open spec fn wf(self) -> bool {
        &&& -FP_FIELD_MAX <= self.x <= FP_FIELD_MAX
        &&& -FP_FIELD_MAX <= self.y <= FP_FIELD_MAX
        &&& -FP_FIELD_MAX <= self.len <= FP_FIELD_MAX
    }

    /// The vector `new` returns: the given coordinates with the freshly
    /// computed polar form.
    pub open spec fn new_spec(x: int, y: int) -> Vector2 {
        (Vector2 {
            x: x as i64,
            y: y as i64,
            len: fnorm(x, y) as i64,
            arg: atan2_fx(y, x) as i64,
        })
    }

    /// The vector `rotate` produces: the angle grows by `angle` and the
    /// coordinates are recomputed from the unchanged magnitude.
    pub open spec fn rotate_spec(v: Vector2, angle: int) -> Vector2 {
        (Vector2 {
            x: fmul(v.len as int, cos_fx(v.arg + angle)) as i64,
            y: fmul(v.len as int, sin_fx(v.arg + angle)) as i64,
            len: v.len,
            arg: (v.arg + angle) as i64,
        })
    }

    /// The vector `scale` produces: coordinates and magnitude multiplied
    /// by the factor, with a zero factor silently corrected to one.
    pub open spec fn scale_spec(v: Vector2, c: int) -> Vector2 {
        let k = scale_factor(c);
        (Vector2 {
            x: fmul(v.x as int, k) as i64,
            y: fmul(v.y as int, k) as i64,
            len: fmul(v.len as int, k) as i64,
            arg: v.arg,
        })
    }

    /// The scaled dot product of two vectors.
    pub open spec fn dot_spec(self, rhs: Vector2) -> int {
        tdiv(self.x * rhs.x + self.y * rhs.y, FP_ONE as int)
    }

    /// The scaled cross product (z component) of two vectors.
    pub open spec fn cross_spec(self, rhs: Vector2) -> int {
        tdiv(self.x * rhs.y - self.y * rhs.x, FP_ONE as int)
    }

    /// The coordinates agree exactly with the cached polar form; every
    /// vector a rotation has produced satisfies this.
    pub open spec fn polar_consistent(self) -> bool {
        &&& self.x as int == fmul(self.len as int, cos_fx(self.arg as int))
        &&& self.y as int == fmul(self.len as int, sin_fx(self.arg as int))
    }

    /// Approximate equality: both coordinate differences stay within
    /// `FP_EPS`.
    pub open spec fn approx_eq_spec(self, rhs: Vector2) -> bool {
        &&& -FP_EPS <= self.x - rhs.x <= FP_EPS
        &&& -FP_EPS <= self.y - rhs.y <= FP_EPS
    }

    /// Build a vector from its coordinates, computing magnitude and angle.
    pub fn new(x: i64, y: i64) -> (v: Vector2)
        requires
            -FP_COORD_MAX <= x <= FP_COORD_MAX,
            -FP_COORD_MAX <= y <= FP_COORD_MAX,
        ensures
            v == Vector2::new_spec(x as int, y as int),
            v.x == x,
            v.y == y,
            v.len as int == fnorm(x as int, y as int),
            is_isqrt(x * x + y * y, v.len as int),
            0 <= v.len <= FP_FIELD_MAX,
            v.arg as int == atan2_fx(y as int, x as int),
            -FP_PI <= v.arg <= FP_PI,
            v.wf(),
    {
        let xi: i128 = x as i128;
        let yi: i128 = y as i128;
        proof {
            assert(0 <= xi * xi <= 7_840_000_000_000_000_000_000_000int && 0 <= yi * yi
                <= 7_840_000_000_000_000_000_000_000int) by (nonlinear_arith)
                requires
                    -2_800_000_000_000 <= xi <= 2_800_000_000_000,
                    -2_800_000_000_000 <= yi <= 2_800_000_000_000,
            ;
        }
        let n: u128 = (xi * xi + yi * yi) as u128;
        let l: u64 = isqrt(n);
        proof {
            assert(l as int <= 4_000_000_000_000int) by (nonlinear_arith)
                requires
                    0 <= l as int,
                    (l as int) * (l as int) <= n as int,
                    n as int <= 15_680_000_000_000_000_000_000_000int,
            ;
        }
        let a: i64 = atan2_fp(y, x);
        Vector2 { x, y, len: l as i64, arg: a }
    }

    /// The horizontal coordinate.
    pub fn x(&self) -> (r: i64)
        ensures
            r == self.x,
    {
        self.x
    }

    /// The vertical coordinate.
    pub fn y(&self) -> (r: i64)
        ensures
            r == self.y,
    {
        self.y
    }

    /// The cached magnitude.
    pub fn len(&self) -> (r: i64)
        ensures
            r == self.len,
    {
        self.len
    }

    /// The cached angle from the positive x axis, in micro-radians.
    pub fn arg(&self) -> (r: i64)
        ensures
            r == self.arg,
    {
        self.arg
    }

    /// The dot product of two vectors, rescaled to micro-units.
    pub fn dot(&self, rhs: Vector2) -> (r: i64)
        requires
            -FP_DOT_MAX <= self.x <= FP_DOT_MAX,
            -FP_DOT_MAX <= self.y <= FP_DOT_MAX,
            -FP_DOT_MAX <= rhs.x <= FP_DOT_MAX,
            -FP_DOT_MAX <= rhs.y <= FP_DOT_MAX,
        ensures
            r as int == self.dot_spec(rhs),
    {
        proof {
            assert(-4_000_000_000_000_000_000_000_000int <= (self.x as int) * (rhs.x as int)
                <= 4_000_000_000_000_000_000_000_000int && -4_000_000_000_000_000_000_000_000int
                <= (self.y as int) * (rhs.y as int) <= 4_000_000_000_000_000_000_000_000int)
                by (nonlinear_arith)
                requires
                    -2_000_000_000_000 <= self.x as int <= 2_000_000_000_000,
                    -2_000_000_000_000 <= self.y as int <= 2_000_000_000_000,
                    -2_000_000_000_000 <= rhs.x as int <= 2_000_000_000_000,
                    -2_000_000_000_000 <= rhs.y as int <= 2_000_000_000_000,
            ;
            lemma_tdiv_abs(
                (self.x as int) * (rhs.x as int) + (self.y as int) * (rhs.y as int),
                FP_ONE as int,
            );
            vstd::arithmetic::div_mod::lemma_div_is_ordered(
                vstd::math::abs(
                    (self.x as int) * (rhs.x as int) + (self.y as int) * (rhs.y as int),
                ) as int,
                8_000_000_000_000_000_000_000_000int,
                FP_ONE as int,
            );
        }
        let n: i128 = (self.x as i128) * (rhs.x as i128) + (self.y as i128) * (rhs.y as i128);
        let q: i128 = i128_div_unit(n);
        q as i64
    }

    /// The cross product (z component) of two vectors, rescaled to
    /// micro-units.
    pub fn cross(&self, rhs: Vector2) -> (r: i64)
        requires
            -FP_DOT_MAX <= self.x <= FP_DOT_MAX,
            -FP_DOT_MAX <= self.y <= FP_DOT_MAX,
            -FP_DOT_MAX <= rhs.x <= FP_DOT_MAX,
            -FP_DOT_MAX <= rhs.y <= FP_DOT_MAX,
        ensures
            r as int == self.cross_spec(rhs),
    {
        proof {
            assert(-4_000_000_000_000_000_000_000_000int <= (self.x as int) * (rhs.y as int)
                <= 4_000_000_000_000_000_000_000_000int && -4_000_000_000_000_000_000_000_000int
                <= (self.y as int) * (rhs.x as int) <= 4_000_000_000_000_000_000_000_000int)
                by (nonlinear_arith)
                requires
                    -2_000_000_000_000 <= self.x as int <= 2_000_000_000_000,
                    -2_000_000_000_000 <= self.y as int <= 2_000_000_000_000,
                    -2_000_000_000_000 <= rhs.x as int <= 2_000_000_000_000,
                    -2_000_000_000_000 <= rhs.y as int <= 2_000_000_000_000,
            ;
            lemma_tdiv_abs(
                (self.x as int) * (rhs.y as int) - (self.y as int) * (rhs.x as int),
                FP_ONE as int,
            );
            vstd::arithmetic::div_mod::lemma_div_is_ordered(
                vstd::math::abs(
                    (self.x as int) * (rhs.y as int) - (self.y as int) * (rhs.x as int),
                ) as int,
                8_000_000_000_000_000_000_000_000int,
                FP_ONE as int,
            );
        }
        let n: i128 = (self.x as i128) * (rhs.y as i128) - (self.y as i128) * (rhs.x as i128);
        let q: i128 = i128_div_unit(n);
        q as i64
    }

    /// Shift the vector by the given offset, recomputing the polar form,
    /// and return the updated vector for chaining.
    pub fn translate(&mut self, offset: Vector2) -> (r: Vector2)
        requires
            -FP_COORD_MAX <= old(self).x + offset.x <= FP_COORD_MAX,
            -FP_COORD_MAX <= old(self).y + offset.y <= FP_COORD_MAX,
        ensures
            *final(self) == Vector2::new_spec(
                old(self).x + offset.x as int,
                old(self).y + offset.y as int,
            ),
            final(self).x == old(self).x + offset.x,
            final(self).y == old(self).y + offset.y,
            final(self).wf(),
            r == *final(self),
    {
        *self = Vector2::new(self.x + offset.x, self.y + offset.y);
        *self
    }

    /// Rotate the vector about the origin: add the angle to the cached
    /// argument and recompute the coordinates from the unchanged
    /// magnitude.  Returns the updated vector for chaining.
    pub fn rotate(&mut self, angle: i64) -> (r: Vector2)
        requires
            old(self).wf(),
            i64::MIN as int <= old(self).arg + angle,
            old(self).arg + angle + FP_HALF_PI <= i64::MAX as int,
        ensures
            *final(self) == Vector2::rotate_spec(*old(self), angle as int),
            final(self).len == old(self).len,
            final(self).arg as int == old(self).arg + angle,
            final(self).x as int == fmul(old(self).len as int, cos_fx(old(self).arg + angle)),
            final(self).y as int == fmul(old(self).len as int, sin_fx(old(self).arg + angle)),
            final(self).polar_consistent(),
            final(self).wf(),
            r == *final(self),
    {
        let na: i64 = self.arg + angle;
        let c: i64 = cos_fp(na);
        let s: i64 = sin_fp(na);
        proof {
            lemma_fmul_contracts(self.len as int, c as int);
            lemma_fmul_contracts(self.len as int, s as int);
        }
        self.x = fp_mul(self.len, c);
        self.y = fp_mul(self.len, s);
        self.arg = na;
        *self
    }

    /// Scale coordinates and magnitude by `c`; a zero factor is treated
    /// as an invalid no-op and replaced by one.  Returns the updated
    /// vector for chaining.
    pub fn scale(&mut self, c: i64) -> (r: Vector2)
        requires
            -FP_FIELD_MAX <= fmul(old(self).x as int, scale_factor(c as int)) <= FP_FIELD_MAX,
            -FP_FIELD_MAX <= fmul(old(self).y as int, scale_factor(c as int)) <= FP_FIELD_MAX,
            -FP_FIELD_MAX <= fmul(old(self).len as int, scale_factor(c as int)) <= FP_FIELD_MAX,
        ensures
            *final(self) == Vector2::scale_spec(*old(self), c as int),
            final(self).arg == old(self).arg,
            final(self).wf(),
            r == *final(self),
    {
        let k: i64 = if c == 0 {
            1
        } else {
            c
        };
        self.x = fp_mul(self.x, k);
        self.y = fp_mul(self.y, k);
        self.len = fp_mul(self.len, k);
        *self
    }

    /// The componentwise sum, with a freshly computed polar form.
    pub fn add(self, rhs: Vector2) -> (v: Vector2)
        requires
            -FP_COORD_MAX <= self.x + rhs.x <= FP_COORD_MAX,
            -FP_COORD_MAX <= self.y + rhs.y <= FP_COORD_MAX,
        ensures
            v == Vector2::new_spec(self.x + rhs.x as int, self.y + rhs.y as int),
            v.x == self.x + rhs.x,
            v.y == self.y + rhs.y,
            v.len as int == fnorm(self.x + rhs.x, self.y + rhs.y),
            is_isqrt(
                (self.x + rhs.x) * (self.x + rhs.x) + (self.y + rhs.y) * (self.y + rhs.y),
                v.len as int,
            ),
            0 <= v.len,
            v.arg as int == atan2_fx(self.y + rhs.y, self.x + rhs.x),
            -FP_PI <= v.arg <= FP_PI,
            v.wf(),
    {
        Vector2::new(self.x + rhs.x, self.y + rhs.y)
    }

    /// The componentwise difference, with a freshly computed polar form.
    pub fn sub(self, rhs: Vector2) -> (v: Vector2)
        requires
            -FP_COORD_MAX <= self.x - rhs.x <= FP_COORD_MAX,
            -FP_COORD_MAX <= self.y - rhs.y <= FP_COORD_MAX,
        ensures
            v == Vector2::new_spec(self.x - rhs.x as int, self.y - rhs.y as int),
            v.x == self.x - rhs.x,
            v.y == self.y - rhs.y,
            v.len as int == fnorm(self.x - rhs.x, self.y - rhs.y),
            is_isqrt(
                (self.x - rhs.x) * (self.x - rhs.x) + (self.y - rhs.y) * (self.y - rhs.y),
                v.len as int,
            ),
            0 <= v.len,
            v.arg as int == atan2_fx(self.y - rhs.y, self.x - rhs.x),
            -FP_PI <= v.arg <= FP_PI,
            v.wf(),
    {
        Vector2::new(self.x - rhs.x, self.y - rhs.y)
    }

    /// Approximate equality against another vector: both coordinate
    /// differences within `FP_EPS`.  Not transitive, by design.
    pub fn equals_vector(&self, rhs: Vector2) -> (r: bool)
        ensures
            r == self.approx_eq_spec(rhs),
    {
        let dx: i128 = (self.x as i128) - (rhs.x as i128);
        let dy: i128 = (self.y as i128) - (rhs.y as i128);
        let e: i128 = FP_EPS as i128;
        -e <= dx && dx <= e && -e <= dy && dy <= e
    }

    /// Render the vector as `(x, y)`.
    pub fn to_string(&self) -> (s: String)
        ensures
            s@ == vector_str(*self),
    {
        let mut s = String::from_str("(");
        s.append(fixed_to_string(self.x).as_str());
        s.append(", ");
        s.append(fixed_to_string(self.y).as_str());
        s.append(")");
        proof {
            assert(s@ =~= vector_str(*self));
        }
        s
    }

    /// Approximate equality against a coordinate pair.
    pub fn equals_tuple(&self, rhs: (i64, i64)) -> (r: bool)
        ensures
            r == (-FP_EPS <= self.x - rhs.0 <= FP_EPS && -FP_EPS <= self.y - rhs.1 <= FP_EPS),
    {
        let dx: i128 = (self.x as i128) - (rhs.0 as i128);
        let dy: i128 = (self.y as i128) - (rhs.1 as i128);
        let e: i128 = FP_EPS as i128;
        -e <= dx && dx <= e && -e <= dy && dy <= e
    }
}

/// The display text of a vector: `(x, y)` with fixed-point decimals.
pub open spec fn vector_str(v: Vector2) -> Seq<char> {
    "("@ + fixed_str(v.x as int) + ", "@ + fixed_str(v.y as int) + ")"@
}

/// For all vectors the dot product is symmetric:
/// `dot(v, w) == dot(w, v)`.
pub proof fn lemma_dot_symmetric(v: Vector2, w: Vector2)
    ensures
        v.dot_spec(w) == w.dot_spec(v),
{
    assert((v.x as int) * (w.x as int) + (v.y as int) * (w.y as int) == (w.x as int) * (v.x as int)
        + (w.y as int) * (v.y as int)) by (nonlinear_arith);
}

/// For all vectors the cross product is antisymmetric:
/// `cross(v, w) == -cross(w, v)`.
pub proof fn lemma_cross_antisymmetric(v: Vector2, w: Vector2)
    ensures
        v.cross_spec(w) == -w.cross_spec(v),
{
    assert((v.x as int) * (w.y as int) - (v.y as int) * (w.x as int) == -((w.x as int) * (v.y as int)
        - (w.y as int) * (v.x as int))) by (nonlinear_arith);
}

/// Rotating by an angle and then by its negation restores the vector's
/// coordinates exactly whenever they agree with the cached polar form
/// (as they do for every vector a rotation has produced); for every other
/// vector the round trip lands exactly where a rotation by zero does, and
/// the magnitude and angle are restored exactly in all cases.
pub proof fn lemma_rotate_round_trip(v: Vector2, angle: int)
    requires
        i64::MIN as int <= v.arg + angle <= i64::MAX as int,
    ensures
        Vector2::rotate_spec(Vector2::rotate_spec(v, angle), -angle) == Vector2::rotate_spec(v, 0),
        Vector2::rotate_spec(Vector2::rotate_spec(v, angle), -angle).len == v.len,
        Vector2::rotate_spec(Vector2::rotate_spec(v, angle), -angle).arg == v.arg,
        v.polar_consistent() ==> Vector2::rotate_spec(Vector2::rotate_spec(v, angle), -angle).x
            == v.x,
        v.polar_consistent() ==> Vector2::rotate_spec(Vector2::rotate_spec(v, angle), -angle).y
            == v.y,
{
    let once = Vector2::rotate_spec(v, angle);
    assert(once.arg == v.arg + angle);
    assert(once.arg + (-angle) == v.arg as int);
}

} // verus!
