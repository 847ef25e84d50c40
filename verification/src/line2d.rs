//! Line segments.
//!
//! A line keeps its two endpoints, its style, and the cached length and
//! angle of the segment.  Rotation turns the segment about its starting
//! point; scaling stretches it away from the starting point.

use vstd::prelude::*;
use vstd::string::StringExecFns;
use crate::fixed::FP_ONE;
use crate::fixed::FP_PI;
use crate::fixed::FP_COORD_MAX;
use crate::fixed::FP_FIELD_MAX;
use crate::fixed::FP_ANGLE_MAX;
use crate::fixed::fmul;
use crate::fixed::fnorm;
use crate::fixed::scale_factor;
use crate::fixed::lemma_isqrt_le_abs_sum;
use crate::fixed::lemma_fmul_contracts;
use crate::trig::atan2_fx;
use crate::vector::Vector2;
use crate::vector::FP_DOT_MAX;
use crate::color::Color;
use crate::color::color_str;
use crate::numfmt::fixed_str;
use crate::numfmt::dec_str;
use crate::numfmt::fixed_to_string;
use crate::numfmt::u64_to_string;
use crate::svg::tag_str;
use crate::svg::pairs_view;
use crate::svg::compose_tag;

verus! {

/// Tolerance, in raw steps, on the cross product in the hit test: the
/// collinearity check of `contains`.
pub const FP_LINE_EPS: i64 = 1_000;

/// A line segment in 2d cartesian space, with style and cached length
/// and angle.
#[derive(Clone, Copy, Debug, PartialEq, Eq, Structural)]
pub struct Line2D {
    pub start: Vector2,
    pub end: Vector2,
    pub stroke_color: Color,
    pub stroke_width: u8,
    pub fill: Color,
    pub len: i64,
    pub angle: i64,
}

/// The `style` attribute of a line tag.
pub open spec fn line_style_str(l: Line2D) -> Seq<char> {
    "fill:"@ + color_str(l.fill) + ";stroke:"@ + color_str(l.stroke_color) + ";stroke-width:"@
        + dec_str(l.stroke_width as int)
}

/// The attributes of a line tag, in the order they are written.
pub open spec fn line_props(l: Line2D) -> Seq<(Seq<char>, Seq<char>)> {
    seq![
        ("x1"@, fixed_str(l.start.x as int)),
        ("y1"@, fixed_str(l.start.y as int)),
        ("x2"@, fixed_str(l.end.x as int)),
        ("y2"@, fixed_str(l.end.y as int)),
        ("style"@, line_style_str(l)),
    ]
}

impl Line2D {
    /// Endpoints, cached length and colors of a line the library built
    /// stay within their bounds.
    pub open spec fn wf(self) -> bool {
        &&& self.start.wf()
        &&& self.end.wf()
        &&& -FP_FIELD_MAX <= self.len <= FP_FIELD_MAX
        &&& self.stroke_color.wf()
        &&& self.fill.wf()
    }

    /// The line `translate` produces: both endpoints shifted, style and
    /// cached fields untouched (the segment's difference is unchanged).
    pub open spec fn translate_spec(l: Line2D, offset: Vector2) -> Line2D {
        (Line2D {
            start: Vector2::new_spec(l.start.x + offset.x, l.start.y + offset.y),
            end: Vector2::new_spec(l.end.x + offset.x, l.end.y + offset.y),
            ..l
        })
    }

    /// The line `rotate` produces: the end recomputed by rotating the
    /// vector from start to end about the start, and the cached angle
    /// grown by the rotation.
    pub open spec fn rotate_spec(l: Line2D, angle: int) -> Line2D {
        let diff = Vector2::new_spec(l.end.x - l.start.x, l.end.y - l.start.y);
        let rotated = Vector2::rotate_spec(diff, angle);
        (Line2D {
            end: Vector2::new_spec(l.start.x + rotated.x, l.start.y + rotated.y),
            angle: (l.angle + angle) as i64,
            ..l
        })
    }

    /// The line `scale` produces: the vector from start to end scaled
    /// (a zero factor corrected to one), the end moved accordingly, and
    /// the cached length scaled.
    pub open spec fn scale_spec(l: Line2D, c: int) -> Line2D {
        let diff = Vector2::new_spec(l.end.x - l.start.x, l.end.y - l.start.y);
        let scaled = Vector2::scale_spec(diff, c);
        (Line2D {
            end: Vector2::new_spec(l.start.x + scaled.x, l.start.y + scaled.y),
            len: scaled.len,
            ..l
        })
    }

    /// The hit test: the point lies on the segment when the cross
    /// product of the two difference vectors is within tolerance of zero
    /// (collinearity) and neither difference is longer than the cached
    /// length (segment bounds).
    pub open spec fn contains_spec(l: Line2D, p: Vector2) -> bool {
        let d1 = Vector2::new_spec(p.x - l.start.x, p.y - l.start.y);
        let d2 = Vector2::new_spec(l.end.x - p.x, l.end.y - p.y);
        let c = d1.cross_spec(d2);
        let m = if d1.len >= d2.len {
            d1.len
        } else {
            d2.len
        };
        &&& -FP_LINE_EPS <= c <= FP_LINE_EPS
        &&& m <= l.len
    }

    /// The line `new` returns: the endpoints, the style with defaults
    /// filled in, and the freshly computed length and angle of the
    /// segment.
    pub open spec fn new_spec(
        start: Vector2,
        end: Vector2,
        stroke_color: Option<Color>,
        stroke_width: Option<u8>,
        fill: Option<Color>,
    ) -> Line2D {
        (Line2D {
            start,
            end,
            stroke_color: match stroke_color {
                Option::Some(c) => c,
                Option::None => Color(0, 0, 255, FP_ONE),
            },
            stroke_width: match stroke_width {
                Option::Some(w) => w,
                Option::None => 5u8,
            },
            fill: match fill {
                Option::Some(c) => c,
                Option::None => Color(0, 0, 0, FP_ONE),
            },
            len: fnorm(end.x - start.x, end.y - start.y) as i64,
            angle: atan2_fx(end.y - start.y, end.x - start.x) as i64,
        })
    }

    /// The markup fragment of the line.
    pub open spec fn tag_spec(l: Line2D) -> Seq<char> {
        tag_str("line"@, line_props(l), Option::None)
    }

    /// Build a line from its endpoints and optional style; omitted style
    /// options take the documented defaults (blue stroke of width five,
    /// white fill), and the length and angle of the segment are computed.
    pub fn new(
        start: Vector2,
        end: Vector2,
        stroke_color: Option<Color>,
        stroke_width: Option<u8>,
        fill: Option<Color>,
    ) -> (l: Line2D)
        requires
            start.wf(),
            end.wf(),
            -FP_COORD_MAX <= end.x - start.x <= FP_COORD_MAX,
            -FP_COORD_MAX <= end.y - start.y <= FP_COORD_MAX,
            stroke_color matches Option::Some(c) ==> c.wf(),
            fill matches Option::Some(c) ==> c.wf(),
        ensures
            l == Line2D::new_spec(start, end, stroke_color, stroke_width, fill),
            l.start == start,
            l.end == end,
            l.stroke_color == match stroke_color {
                Option::Some(c) => c,
                Option::None => Color(0, 0, 255, FP_ONE),
            },
            l.stroke_width == match stroke_width {
                Option::Some(w) => w,
                Option::None => 5u8,
            },
            l.fill == match fill {
                Option::Some(c) => c,
                Option::None => Color(0, 0, 0, FP_ONE),
            },
            l.len as int == fnorm(end.x - start.x, end.y - start.y),
            0 <= l.len,
            l.angle as int == atan2_fx(end.y - start.y, end.x - start.x),
            -FP_PI <= l.angle <= FP_PI,
            l.wf(),
    {
        let diff = end.sub(start);
        Line2D {
            start,
            end,
            stroke_color: match stroke_color {
                Option::Some(c) => c,
                Option::None => Color::blue(),
            },
            stroke_width: match stroke_width {
                Option::Some(w) => w,
                Option::None => 5,
            },
            fill: match fill {
                Option::Some(c) => c,
                Option::None => Color::white(),
            },
            len: diff.len,
            angle: diff.arg,
        }
    }

    /// The starting point.
    pub fn start(&self) -> (r: Vector2)
        ensures
            r == self.start,
    {
        self.start
    }

    /// The ending point.
    pub fn end(&self) -> (r: Vector2)
        ensures
            r == self.end,
    {
        self.end
    }

    /// The stroke color.
    pub fn stroke_color(&self) -> (r: Color)
        ensures
            r == self.stroke_color,
    {
        self.stroke_color
    }

    /// The stroke width.
    pub fn stroke_width(&self) -> (r: u8)
        ensures
            r == self.stroke_width,
    {
        self.stroke_width
    }

    /// The fill color.
    pub fn fill(&self) -> (r: Color)
        ensures
            r == self.fill,
    {
        self.fill
    }

    /// The cached segment length.
    pub fn len(&self) -> (r: i64)
        ensures
            r == self.len,
    {
        self.len
    }

    /// The cached segment angle, in micro-radians.
    pub fn angle(&self) -> (r: i64)
        ensures
            r == self.angle,
    {
        self.angle
    }

    /// Shift both endpoints by the offset.
    pub fn translate(&mut self, offset: Vector2)
        requires
            old(self).wf(),
            -FP_COORD_MAX <= old(self).start.x + offset.x <= FP_COORD_MAX,
            -FP_COORD_MAX <= old(self).start.y + offset.y <= FP_COORD_MAX,
            -FP_COORD_MAX <= old(self).end.x + offset.x <= FP_COORD_MAX,
            -FP_COORD_MAX <= old(self).end.y + offset.y <= FP_COORD_MAX,
        ensures
            *final(self) == Line2D::translate_spec(*old(self), offset),
            final(self).wf(),
    {
        self.start.translate(offset);
        self.end.translate(offset);
    }

    /// Rotate the segment about its starting point and grow the cached
    /// angle.
    pub fn rotate(&mut self, angle: i64)
        requires
            old(self).wf(),
            -FP_ANGLE_MAX <= angle <= FP_ANGLE_MAX,
            i64::MIN as int <= old(self).angle + angle <= i64::MAX as int,
            -FP_COORD_MAX <= old(self).end.x - old(self).start.x <= FP_COORD_MAX,
            -FP_COORD_MAX <= old(self).end.y - old(self).start.y <= FP_COORD_MAX,
            old(self).start.x + vstd::math::abs(old(self).end.x - old(self).start.x)
                + vstd::math::abs(old(self).end.y - old(self).start.y) <= FP_COORD_MAX,
            old(self).start.x - vstd::math::abs(old(self).end.x - old(self).start.x)
                - vstd::math::abs(old(self).end.y - old(self).start.y) >= -FP_COORD_MAX,
            old(self).start.y + vstd::math::abs(old(self).end.x - old(self).start.x)
                + vstd::math::abs(old(self).end.y - old(self).start.y) <= FP_COORD_MAX,
            old(self).start.y - vstd::math::abs(old(self).end.x - old(self).start.x)
                - vstd::math::abs(old(self).end.y - old(self).start.y) >= -FP_COORD_MAX,
        ensures
            *final(self) == Line2D::rotate_spec(*old(self), angle as int),
            final(self).start == old(self).start,
            final(self).len == old(self).len,
            final(self).angle as int == old(self).angle + angle,
            final(self).wf(),
    {
        let mut diff = self.end.sub(self.start);
        proof {
            let dx = self.end.x - self.start.x;
            let dy = self.end.y - self.start.y;
            lemma_isqrt_le_abs_sum(dx as int, dy as int, diff.len as int);
        }
        let rotated = diff.rotate(angle);
        proof {
            crate::trig::lemma_cos_fx_range(diff.arg as int);
            crate::trig::lemma_sin_fx_range(diff.arg as int);
            lemma_fmul_contracts(diff.len as int, crate::trig::cos_fx(diff.arg as int));
            lemma_fmul_contracts(diff.len as int, crate::trig::sin_fx(diff.arg as int));
        }
        self.end = self.start.add(rotated);
        self.angle = self.angle + angle;
    }

    /// Stretch the segment away from its starting point by `c`; a zero
    /// factor is corrected to one.  The cached length is scaled too.
    pub fn scale(&mut self, c: i64)
        requires
            old(self).wf(),
            -FP_COORD_MAX <= old(self).end.x - old(self).start.x <= FP_COORD_MAX,
            -FP_COORD_MAX <= old(self).end.y - old(self).start.y <= FP_COORD_MAX,
            -FP_FIELD_MAX <= fmul(old(self).end.x - old(self).start.x, scale_factor(c as int))
                <= FP_FIELD_MAX,
            -FP_FIELD_MAX <= fmul(old(self).end.y - old(self).start.y, scale_factor(c as int))
                <= FP_FIELD_MAX,
            -FP_FIELD_MAX <= fmul(
                fnorm(old(self).end.x - old(self).start.x, old(self).end.y - old(self).start.y),
                scale_factor(c as int),
            ) <= FP_FIELD_MAX,
            -FP_COORD_MAX <= old(self).start.x + fmul(
                old(self).end.x - old(self).start.x,
                scale_factor(c as int),
            ) <= FP_COORD_MAX,
            -FP_COORD_MAX <= old(self).start.y + fmul(
                old(self).end.y - old(self).start.y,
                scale_factor(c as int),
            ) <= FP_COORD_MAX,
        ensures
            *final(self) == Line2D::scale_spec(*old(self), c as int),
            final(self).start == old(self).start,
            final(self).angle == old(self).angle,
            final(self).wf(),
    {
        let mut diff = self.end.sub(self.start);
        diff.scale(c);
        self.end = self.start.add(diff);
        self.len = diff.len();
    }

    /// The hit test: whether the point lies on the segment, within the
    /// documented tolerance.
    pub fn contains(&self, point: Vector2) -> (r: bool)
        requires
            self.wf(),
            point.wf(),
            -FP_DOT_MAX <= point.x - self.start.x <= FP_DOT_MAX,
            -FP_DOT_MAX <= point.y - self.start.y <= FP_DOT_MAX,
            -FP_DOT_MAX <= self.end.x - point.x <= FP_DOT_MAX,
            -FP_DOT_MAX <= self.end.y - point.y <= FP_DOT_MAX,
        ensures
            r == Line2D::contains_spec(*self, point),
    {
        let d1 = point.sub(self.start);
        let d2 = self.end.sub(point);
        let maxlen = if d1.len() >= d2.len() {
            d1.len()
        } else {
            d2.len()
        };
        let c = d1.cross(d2);
        -FP_LINE_EPS <= c && c <= FP_LINE_EPS && maxlen <= self.len
    }

    /// The tag name of a line fragment.
    pub fn get_svg_tag_name(&self) -> (s: String)
        ensures
            s@ == "line"@,
    {
        String::from_str("line")
    }

    /// The attributes of the line tag: endpoints and style, in the order
    /// they are written.
    pub fn get_svg_tag_properties(&self) -> (ps: Vec<(String, String)>)
        ensures
            pairs_view(ps@) == line_props(*self),
    {
        let mut ps: Vec<(String, String)> = Vec::new();
        ps.push((String::from_str("x1"), fixed_to_string(self.start.x)));
        ps.push((String::from_str("y1"), fixed_to_string(self.start.y)));
        ps.push((String::from_str("x2"), fixed_to_string(self.end.x)));
        ps.push((String::from_str("y2"), fixed_to_string(self.end.y)));
        let mut style = String::from_str("fill:");
        style.append(self.fill.to_string().as_str());
        style.append(";stroke:");
        style.append(self.stroke_color.to_string().as_str());
        style.append(";stroke-width:");
        style.append(u64_to_string(self.stroke_width as u64).as_str());
        proof {
            assert(style@ =~= line_style_str(*self));
        }
        ps.push((String::from_str("style"), style));
        proof {
            assert(pairs_view(ps@) =~= line_props(*self));
        }
        ps
    }

    /// A line fragment has no inner content.
    pub fn get_svg_inner_content(&self) -> (r: Option<String>)
        ensures
            r is None,
    {
        Option::None
    }

    /// The markup fragment of the line.
    pub fn to_svg_tag(&self) -> (s: String)
        ensures
            s@ == Line2D::tag_spec(*self),
    {
        let name = self.get_svg_tag_name();
        let props = self.get_svg_tag_properties();
        let inner = self.get_svg_inner_content();
        compose_tag(name.as_str(), &props, &inner)
    }
}

} // verus!
