//! Circles.
//!
//! A circle keeps its center, radius and style, together with the cached
//! circumference and area, which every radius change recomputes.

use vstd::prelude::*;
use vstd::string::StringExecFns;
use crate::fixed::FP_ONE;
use crate::fixed::FP_TAU;
use crate::fixed::FP_PI;
use crate::fixed::FP_COORD_MAX;
use crate::fixed::tdiv;
use crate::fixed::fmul;
use crate::fixed::fnorm;
use crate::fixed::scale_factor;
use crate::fixed::fp_mul;
use crate::vector::Vector2;
use crate::color::Color;
use crate::numfmt::fixed_str;
use crate::numfmt::fixed_to_string;
use crate::svg::tag_str;
use crate::svg::pairs_view;
use crate::svg::compose_tag;

verus! {

/// Largest radius the circle operations accept, so that the cached area
/// fits in an `i64`.
pub const FP_RADIUS_MAX: i64 = 1_000_000_000_000;

/// The circumference of a circle of fixed-point radius `r`: two pi times
/// the radius, rounded toward zero.
pub open spec fn circ_spec(r: int) -> int {
    tdiv(FP_TAU * r, FP_ONE as int)
}

/// The area of a circle of fixed-point radius `r`: pi times the squared
/// radius, rescaled and rounded toward zero.
pub open spec fn area_spec(r: int) -> int {
    tdiv(FP_PI * r * r, (FP_ONE as int) * (FP_ONE as int))
}

/// The attributes of a circle tag, in the order they are written.
pub open spec fn circle_props(c: Circle) -> Seq<(Seq<char>, Seq<char>)> {
    seq![
        ("cx"@, fixed_str(c.center.x as int)),
        ("cy"@, fixed_str(c.center.y as int)),
        ("r"@, fixed_str(c.radius as int)),
    ]
}

/// A circle in 2d cartesian space, with style and cached circumference
/// and area.
#[derive(Clone, Copy, Debug, PartialEq, Eq, Structural)]
pub struct Circle {
    pub center: Vector2,
    pub radius: i64,
    pub stroke_color: Color,
    pub stroke_width: u8,
    pub fill: Color,
    pub circumference: i64,
    pub area: i64,
}

/// The cached circumference and area of a circle of the given radius.
fn circle_derived(radius: i64) -> (ca: (i64, i64))
    requires
        0 <= radius <= FP_RADIUS_MAX,
    ensures
        ca.0 as int == circ_spec(radius as int),
        ca.1 as int == area_spec(radius as int),
        0 <= ca.0,
        0 <= ca.1,
{
    let r: u128 = radius as u128;
    proof {
        assert(6_283_184int * (r as int) <= 6_283_184_000_000_000_000int && 3_141_592int * (
        r as int) * (r as int) <= 3_141_592_000_000_000_000_000_000_000_000int)
            by (nonlinear_arith)
            requires
                0 <= r as int <= 1_000_000_000_000int,
        ;
        vstd::arithmetic::div_mod::lemma_div_is_ordered(
            6_283_184int * (r as int),
            6_283_184_000_000_000_000int,
            1_000_000int,
        );
        vstd::arithmetic::div_mod::lemma_div_is_ordered(
            3_141_592int * (r as int) * (r as int),
            3_141_592_000_000_000_000_000_000_000_000int,
            1_000_000_000_000int,
        );
        assert(6_283_184_000_000_000_000int / 1_000_000int == 6_283_184_000_000int)
            by (nonlinear_arith);
        assert(3_141_592_000_000_000_000_000_000_000_000int / 1_000_000_000_000int
            == 3_141_592_000_000_000_000int) by (nonlinear_arith);
        vstd::arithmetic::div_mod::lemma_div_pos_is_pos(6_283_184int * (r as int), 1_000_000int);
        vstd::arithmetic::div_mod::lemma_div_pos_is_pos(
            3_141_592int * (r as int) * (r as int),
            1_000_000_000_000int,
        );
    }
    let circ: u128 = (6_283_184u128 * r) / 1_000_000u128;
    let area: u128 = (3_141_592u128 * r * r) / 1_000_000_000_000u128;
    (circ as i64, area as i64)
}

impl Circle {
    /// Center, radius, cached fields and colors of a circle the library
    /// built stay within their bounds, and the cache agrees with the
    /// radius.
    pub open spec fn wf(self) -> bool {
        &&& self.center.wf()
        &&& 0 <= self.radius <= FP_RADIUS_MAX
        &&& self.circumference as int == circ_spec(self.radius as int)
        &&& self.area as int == area_spec(self.radius as int)
        &&& self.stroke_color.wf()
        &&& self.fill.wf()
    }

    /// The circle `translate` produces: the center shifted, all else
    /// untouched.
    pub open spec fn translate_spec(c: Circle, offset: Vector2) -> Circle {
        (Circle { center: Vector2::new_spec(c.center.x + offset.x, c.center.y + offset.y), ..c })
    }

    /// The circle `scale` produces: the radius multiplied by the factor
    /// (a zero factor corrected to one) and the cache recomputed.
    pub open spec fn scale_spec(c: Circle, factor: int) -> Circle {
        let nr = fmul(c.radius as int, scale_factor(factor));
        (Circle {
            radius: nr as i64,
            circumference: circ_spec(nr) as i64,
            area: area_spec(nr) as i64,
            ..c
        })
    }

    /// The hit test: the point lies within the circle, boundary included,
    /// when its distance from the center is at most the radius.
    pub open spec fn contains_spec(c: Circle, p: Vector2) -> bool {
        fnorm(p.x - c.center.x, p.y - c.center.y) <= c.radius
    }

    /// The circle `new` returns: center and radius, the style with
    /// defaults filled in, and the freshly computed circumference and
    /// area.
    pub open spec fn new_spec(
        center: Vector2,
        radius: i64,
        stroke_color: Option<Color>,
        stroke_width: Option<u8>,
        fill: Option<Color>,
    ) -> Circle {
        (Circle {
            center,
            radius,
            stroke_color: match stroke_color {
                Option::Some(cl) => cl,
                Option::None => Color(255, 255, 255, FP_ONE),
            },
            stroke_width: match stroke_width {
                Option::Some(w) => w,
                Option::None => 12u8,
            },
            fill: match fill {
                Option::Some(cl) => cl,
                Option::None => Color(0, 0, 0, FP_ONE),
            },
            circumference: circ_spec(radius as int) as i64,
            area: area_spec(radius as int) as i64,
        })
    }

    /// The markup fragment of the circle.
    pub open spec fn tag_spec(c: Circle) -> Seq<char> {
        tag_str("circle"@, circle_props(c), Option::None)
    }

    /// Build a circle from center, radius and optional style; omitted
    /// style options take the documented defaults (black stroke of width
    /// twelve, white fill), and circumference and area are computed.
    pub fn new(
        center: Vector2,
        radius: i64,
        stroke_color: Option<Color>,
        stroke_width: Option<u8>,
        fill: Option<Color>,
    ) -> (c: Circle)
        requires
            center.wf(),
            0 <= radius <= FP_RADIUS_MAX,
            stroke_color matches Option::Some(cl) ==> cl.wf(),
            fill matches Option::Some(cl) ==> cl.wf(),
        ensures
            c == Circle::new_spec(center, radius, stroke_color, stroke_width, fill),
            c.center == center,
            c.radius == radius,
            c.stroke_color == match stroke_color {
                Option::Some(cl) => cl,
                Option::None => Color(255, 255, 255, FP_ONE),
            },
            c.stroke_width == match stroke_width {
                Option::Some(w) => w,
                Option::None => 12u8,
            },
            c.fill == match fill {
                Option::Some(cl) => cl,
                Option::None => Color(0, 0, 0, FP_ONE),
            },
            c.circumference as int == circ_spec(radius as int),
            c.area as int == area_spec(radius as int),
            c.wf(),
    {
        let derived = circle_derived(radius);
        Circle {
            center,
            radius,
            stroke_color: match stroke_color {
                Option::Some(cl) => cl,
                Option::None => Color::black(),
            },
            stroke_width: match stroke_width {
                Option::Some(w) => w,
                Option::None => 12,
            },
            fill: match fill {
                Option::Some(cl) => cl,
                Option::None => Color::white(),
            },
            circumference: derived.0,
            area: derived.1,
        }
    }

    /// The center.
    pub fn center(&self) -> (r: Vector2)
        ensures
            r == self.center,
    {
        self.center
    }

    /// The radius.
    pub fn radius(&self) -> (r: i64)
        ensures
            r == self.radius,
    {
        self.radius
    }

    /// The stroke color.
    pub fn stroke_color(&self) -> (r: Color)
        ensures
            r == self.stroke_color,
    {
        self.stroke_color
    }

    /// The stroke width.
    pub fn stroke_width(&self) -> (r: u8)
        ensures
            r == self.stroke_width,
    {
        self.stroke_width
    }

    /// The fill color.
    pub fn fill(&self) -> (r: Color)
        ensures
            r == self.fill,
    {
        self.fill
    }

    /// The cached circumference.
    pub fn circumference(&self) -> (r: i64)
        ensures
            r == self.circumference,
    {
        self.circumference
    }

    /// The cached area.
    pub fn area(&self) -> (r: i64)
        ensures
            r == self.area,
    {
        self.area
    }

    /// Shift the center by the offset.
    pub fn translate(&mut self, offset: Vector2)
        requires
            old(self).wf(),
            -FP_COORD_MAX <= old(self).center.x + offset.x <= FP_COORD_MAX,
            -FP_COORD_MAX <= old(self).center.y + offset.y <= FP_COORD_MAX,
        ensures
            *final(self) == Circle::translate_spec(*old(self), offset),
            final(self).radius == old(self).radius,
            final(self).wf(),
    {
        self.center.translate(offset);
    }

    /// Rotating a circle has no geometric effect; the operation exists to
    /// satisfy the shared capability contract.
    pub fn rotate(&mut self, angle: i64)
        ensures
            *final(self) == *old(self),
    {
        let _ = angle;
    }

    /// Multiply the radius by `c` (a zero factor corrected to one) and
    /// recompute circumference and area.
    pub fn scale(&mut self, c: i64)
        requires
            old(self).wf(),
            0 <= fmul(old(self).radius as int, scale_factor(c as int)) <= FP_RADIUS_MAX,
        ensures
            *final(self) == Circle::scale_spec(*old(self), c as int),
            final(self).center == old(self).center,
            final(self).wf(),
    {
        let k: i64 = if c == 0 {
            1
        } else {
            c
        };
        self.radius = fp_mul(self.radius, k);
        let derived = circle_derived(self.radius);
        self.circumference = derived.0;
        self.area = derived.1;
    }

    /// The hit test: whether the point lies within the circle, boundary
    /// included.
    pub fn contains(&self, point: Vector2) -> (r: bool)
        requires
            self.wf(),
            point.wf(),
            -FP_COORD_MAX <= point.x - self.center.x <= FP_COORD_MAX,
            -FP_COORD_MAX <= point.y - self.center.y <= FP_COORD_MAX,
        ensures
            r == Circle::contains_spec(*self, point),
    {
        let diff = point.sub(self.center);
        diff.len() <= self.radius
    }

    /// The tag name of a circle fragment.
    pub fn get_svg_tag_name(&self) -> (s: String)
        ensures
            s@ == "circle"@,
    {
        String::from_str("circle")
    }

    /// The attributes of the circle tag: center and radius, in the order
    /// they are written.
    pub fn get_svg_tag_properties(&self) -> (ps: Vec<(String, String)>)
        ensures
            pairs_view(ps@) == circle_props(*self),
    {
        let mut ps: Vec<(String, String)> = Vec::new();
        ps.push((String::from_str("cx"), fixed_to_string(self.center.x)));
        ps.push((String::from_str("cy"), fixed_to_string(self.center.y)));
        ps.push((String::from_str("r"), fixed_to_string(self.radius)));
        proof {
            assert(pairs_view(ps@) =~= circle_props(*self));
        }
        ps
    }

    /// A circle fragment has no inner content.
    pub fn get_svg_inner_content(&self) -> (r: Option<String>)
        ensures
            r is None,
    {
        Option::None
    }

    /// The markup fragment of the circle.
    pub fn to_svg_tag(&self) -> (s: String)
        ensures
            s@ == Circle::tag_spec(*self),
    {
        let name = self.get_svg_tag_name();
        let props = self.get_svg_tag_properties();
        let inner = self.get_svg_inner_content();
        compose_tag(name.as_str(), &props, &inner)
    }
}

} // verus!
