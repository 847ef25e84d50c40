//! Rectangles.
//!
//! A rectangle keeps an anchor corner, the diagonal vector to the
//! opposite corner, the accumulated rotation, and its style.  The hit
//! test is axis-aligned and deliberately ignores the accumulated
//! rotation, preserving the documented simplification.

use vstd::prelude::*;
use vstd::string::StringExecFns;
use crate::fixed::FP_ONE;
use crate::fixed::FP_PI;
use crate::fixed::FP_COORD_MAX;
use crate::fixed::FP_FIELD_MAX;
use crate::fixed::FP_ANGLE_MAX;
use crate::fixed::fmul;
use crate::fixed::scale_factor;
use crate::vector::Vector2;
use crate::color::Color;
use crate::color::color_str;
use crate::numfmt::fixed_str;
use crate::numfmt::dec_str;
use crate::numfmt::fixed_to_string;
use crate::numfmt::u64_to_string;
use crate::svg::tag_str;
use crate::svg::pairs_view;
use crate::svg::compose_tag;

verus! {

/// The `style` attribute of a rect tag.
pub open spec fn rect_style_str(r: Rect2) -> Seq<char> {
    "fill:"@ + color_str(r.fill) + ";stroke:"@ + color_str(r.stroke_color) + ";stroke_width:"@
        + dec_str(r.stroke_width as int) + ";"@
}

/// The attributes of a rect tag, in the order they are written.
pub open spec fn rect_props(r: Rect2) -> Seq<(Seq<char>, Seq<char>)> {
    seq![
        ("x"@, fixed_str(r.start.x as int)),
        ("y"@, fixed_str(r.start.y as int)),
        ("width"@, fixed_str(r.diagonal.x as int)),
        ("height"@, fixed_str(r.diagonal.y as int)),
        ("style"@, rect_style_str(r)),
    ]
}

/// A rectangle in 2d cartesian space: anchor corner, diagonal to the
/// opposite corner, accumulated rotation, and style.
#[derive(Clone, Copy, Debug, PartialEq, Eq, Structural)]
pub struct Rect2 {
    pub start: Vector2,
    pub diagonal: Vector2,
    pub angle: i64,
    pub stroke_color: Color,
    pub stroke_width: u8,
    pub fill: Color,
}

impl Rect2 {
    /// Corner, diagonal, rotation and colors of a rectangle the library
    /// built stay within their bounds; the diagonal's cached argument
    /// never drifts more than a half turn from the accumulated rotation,
    /// which keeps the de-rotation in `dimensions` in range.
    pub open spec fn wf(self) -> bool {
        &&& self.start.wf()
        &&& self.diagonal.wf()
        &&& -FP_ANGLE_MAX <= self.angle <= FP_ANGLE_MAX
        &&& -FP_PI <= self.diagonal.arg - self.angle <= FP_PI
        &&& self.stroke_color.wf()
        &&& self.fill.wf()
    }

    /// The rectangle `translate` produces: the anchor corner shifted.
    pub open spec fn translate_spec(r: Rect2, offset: Vector2) -> Rect2 {
        (Rect2 { start: Vector2::new_spec(r.start.x + offset.x, r.start.y + offset.y), ..r })
    }

    /// The rectangle `rotate` produces: the rotation accumulated and the
    /// diagonal rotated.
    pub open spec fn rotate_spec(r: Rect2, angle: int) -> Rect2 {
        (Rect2 {
            angle: (r.angle + angle) as i64,
            diagonal: Vector2::rotate_spec(r.diagonal, angle),
            ..r
        })
    }

    /// The rectangle `scale` produces: the diagonal scaled (a zero factor
    /// corrected to one).
    pub open spec fn scale_spec(r: Rect2, c: int) -> Rect2 {
        (Rect2 { diagonal: Vector2::scale_spec(r.diagonal, c), ..r })
    }

    /// The dimensions: at zero accumulated rotation the diagonal itself,
    /// otherwise the diagonal de-rotated by the accumulated rotation;
    /// each component taken by magnitude.
    pub open spec fn dimensions_spec(r: Rect2) -> (int, int) {
        let rot = if r.angle == 0 {
            r.diagonal
        } else {
            Vector2::rotate_spec(r.diagonal, -r.angle)
        };
        (
            if rot.x >= 0 {
                rot.x as int
            } else {
                -(rot.x as int)
            },
            if rot.y >= 0 {
                rot.y as int
            } else {
                -(rot.y as int)
            },
        )
    }

    /// The hit test: the point's offset from the anchor corner stays,
    /// componentwise and by magnitude, within the diagonal's magnitudes.
    /// Axis-aligned: the accumulated rotation is deliberately ignored.
    pub open spec fn contains_spec(r: Rect2, p: Vector2) -> bool {
        let dx = p.x - r.start.x;
        let dy = p.y - r.start.y;
        let adx = if dx >= 0 {
            dx
        } else {
            -dx
        };
        let ady = if dy >= 0 {
            dy
        } else {
            -dy
        };
        let wx = if r.diagonal.x >= 0 {
            r.diagonal.x as int
        } else {
            -(r.diagonal.x as int)
        };
        let wy = if r.diagonal.y >= 0 {
            r.diagonal.y as int
        } else {
            -(r.diagonal.y as int)
        };
        adx <= wx && ady <= wy
    }

    /// The rectangle `new` returns: the anchor corner, the diagonal to
    /// the opposite corner, a zero rotation, and the style with defaults
    /// filled in.
    pub open spec fn new_spec(
        start: Vector2,
        end: Vector2,
        stroke_color: Option<Color>,
        stroke_width: Option<u8>,
        fill: Option<Color>,
    ) -> Rect2 {
        (Rect2 {
            start,
            diagonal: Vector2::new_spec(end.x - start.x, end.y - start.y),
            angle: 0,
            stroke_color: match stroke_color {
                Option::Some(c) => c,
                Option::None => Color(255, 255, 255, FP_ONE),
            },
            stroke_width: match stroke_width {
                Option::Some(w) => w,
                Option::None => 12u8,
            },
            fill: match fill {
                Option::Some(c) => c,
                Option::None => Color(0, 0, 0, FP_ONE),
            },
        })
    }

    /// The markup fragment of the rectangle.
    pub open spec fn tag_spec(r: Rect2) -> Seq<char> {
        tag_str("rect"@, rect_props(r), Option::None)
    }

    /// Build a rectangle from two opposite corners and optional style;
    /// omitted style options take the documented defaults (black stroke
    /// of width twelve, white fill).  The rotation starts at zero.
    pub fn new(
        start: Vector2,
        end: Vector2,
        stroke_color: Option<Color>,
        stroke_width: Option<u8>,
        fill: Option<Color>,
    ) -> (r: Rect2)
        requires
            start.wf(),
            end.wf(),
            -FP_COORD_MAX <= end.x - start.x <= FP_COORD_MAX,
            -FP_COORD_MAX <= end.y - start.y <= FP_COORD_MAX,
            stroke_color matches Option::Some(c) ==> c.wf(),
            fill matches Option::Some(c) ==> c.wf(),
        ensures
            r == Rect2::new_spec(start, end, stroke_color, stroke_width, fill),
            r.start == start,
            r.diagonal == Vector2::new_spec(end.x - start.x, end.y - start.y),
            r.angle == 0,
            r.stroke_color == match stroke_color {
                Option::Some(c) => c,
                Option::None => Color(255, 255, 255, FP_ONE),
            },
            r.stroke_width == match stroke_width {
                Option::Some(w) => w,
                Option::None => 12u8,
            },
            r.fill == match fill {
                Option::Some(c) => c,
                Option::None => Color(0, 0, 0, FP_ONE),
            },
            r.wf(),
    {
        Rect2 {
            start,
            diagonal: end.sub(start),
            angle: 0,
            stroke_color: match stroke_color {
                Option::Some(c) => c,
                Option::None => Color::black(),
            },
            stroke_width: match stroke_width {
                Option::Some(w) => w,
                Option::None => 12,
            },
            fill: match fill {
                Option::Some(c) => c,
                Option::None => Color::white(),
            },
        }
    }

    /// Build a square from its anchor corner and a side length, measured
    /// down the page: the diagonal is `(len, -len)`.
    pub fn new_square(
        start: Vector2,
        len: i64,
        stroke_color: Option<Color>,
        stroke_width: Option<u8>,
        fill: Option<Color>,
    ) -> (r: Rect2)
        requires
            start.wf(),
            -FP_COORD_MAX <= len <= FP_COORD_MAX,
            stroke_color matches Option::Some(c) ==> c.wf(),
            fill matches Option::Some(c) ==> c.wf(),
        ensures
            r.start == start,
            r.diagonal == Vector2::new_spec(len as int, -(len as int)),
            r.angle == 0,
            r.stroke_color == match stroke_color {
                Option::Some(c) => c,
                Option::None => Color(255, 255, 255, FP_ONE),
            },
            r.stroke_width == match stroke_width {
                Option::Some(w) => w,
                Option::None => 12u8,
            },
            r.fill == match fill {
                Option::Some(c) => c,
                Option::None => Color(0, 0, 0, FP_ONE),
            },
            r.wf(),
    {
        Rect2 {
            start,
            diagonal: Vector2::new(len, -len),
            angle: 0,
            stroke_color: match stroke_color {
                Option::Some(c) => c,
                Option::None => Color::black(),
            },
            stroke_width: match stroke_width {
                Option::Some(w) => w,
                Option::None => 12,
            },
            fill: match fill {
                Option::Some(c) => c,
                Option::None => Color::white(),
            },
        }
    }

    /// The anchor corner.
    pub fn start(&self) -> (r: Vector2)
        ensures
            r == self.start,
    {
        self.start
    }

    /// The opposite corner: the anchor plus the diagonal, with a freshly
    /// computed polar form.
    pub fn end(&self) -> (r: Vector2)
        requires
            -FP_COORD_MAX <= self.start.x + self.diagonal.x <= FP_COORD_MAX,
            -FP_COORD_MAX <= self.start.y + self.diagonal.y <= FP_COORD_MAX,
        ensures
            r == Vector2::new_spec(
                self.start.x + self.diagonal.x,
                self.start.y + self.diagonal.y,
            ),
            r.x == self.start.x + self.diagonal.x,
            r.y == self.start.y + self.diagonal.y,
    {
        self.start.add(self.diagonal)
    }

    /// The accumulated rotation, in micro-radians.
    pub fn angle(&self) -> (r: i64)
        ensures
            r == self.angle,
    {
        self.angle
    }

    /// The dimensions: at zero accumulated rotation the diagonal read
    /// directly, otherwise the diagonal de-rotated by the accumulated
    /// rotation; each component taken by magnitude.
    pub fn dimensions(&self) -> (d: (i64, i64))
        requires
            self.wf(),
        ensures
            d.0 as int == Rect2::dimensions_spec(*self).0,
            d.1 as int == Rect2::dimensions_spec(*self).1,
    {
        let mut rotated = self.diagonal;
        if self.angle != 0 {
            rotated.rotate(-self.angle);
        }
        let w: i64 = if rotated.x() >= 0 {
            rotated.x()
        } else {
            -rotated.x()
        };
        let h: i64 = if rotated.y() >= 0 {
            rotated.y()
        } else {
            -rotated.y()
        };
        (w, h)
    }

    /// The stroke color.
    pub fn stroke_color(&self) -> (r: Color)
        ensures
            r == self.stroke_color,
    {
        self.stroke_color
    }

    /// The stroke width.
    pub fn stroke_width(&self) -> (r: u8)
        ensures
            r == self.stroke_width,
    {
        self.stroke_width
    }

    /// The fill color.
    pub fn fill(&self) -> (r: Color)
        ensures
            r == self.fill,
    {
        self.fill
    }

    /// Shift the anchor corner by the offset.
    pub fn translate(&mut self, offset: Vector2)
        requires
            old(self).wf(),
            -FP_COORD_MAX <= old(self).start.x + offset.x <= FP_COORD_MAX,
            -FP_COORD_MAX <= old(self).start.y + offset.y <= FP_COORD_MAX,
        ensures
            *final(self) == Rect2::translate_spec(*old(self), offset),
            final(self).diagonal == old(self).diagonal,
            final(self).angle == old(self).angle,
            final(self).wf(),
    {
        self.start.translate(offset);
    }

    /// Accumulate the rotation and rotate the diagonal.
    pub fn rotate(&mut self, angle: i64)
        requires
            old(self).wf(),
            -FP_ANGLE_MAX <= old(self).angle + angle <= FP_ANGLE_MAX,
        ensures
            *final(self) == Rect2::rotate_spec(*old(self), angle as int),
            final(self).start == old(self).start,
            final(self).angle as int == old(self).angle + angle,
            final(self).wf(),
    {
        self.angle = self.angle + angle;
        self.diagonal.rotate(angle);
    }

    /// Scale the diagonal by `c`; a zero factor is corrected to one.
    pub fn scale(&mut self, c: i64)
        requires
            old(self).wf(),
            -FP_FIELD_MAX <= fmul(old(self).diagonal.x as int, scale_factor(c as int))
                <= FP_FIELD_MAX,
            -FP_FIELD_MAX <= fmul(old(self).diagonal.y as int, scale_factor(c as int))
                <= FP_FIELD_MAX,
            -FP_FIELD_MAX <= fmul(old(self).diagonal.len as int, scale_factor(c as int))
                <= FP_FIELD_MAX,
        ensures
            *final(self) == Rect2::scale_spec(*old(self), c as int),
            final(self).start == old(self).start,
            final(self).angle == old(self).angle,
            final(self).wf(),
    {
        self.diagonal.scale(c);
    }

    /// The hit test: whether the point's offset from the anchor corner
    /// stays within the diagonal's magnitudes.  Axis-aligned: the
    /// accumulated rotation is deliberately ignored.
    pub fn contains(&self, point: Vector2) -> (r: bool)
        requires
            self.wf(),
            point.wf(),
            -FP_COORD_MAX <= point.x - self.start.x <= FP_COORD_MAX,
            -FP_COORD_MAX <= point.y - self.start.y <= FP_COORD_MAX,
        ensures
            r == Rect2::contains_spec(*self, point),
    {
        let diff = point.sub(self.start);
        let adx: i64 = if diff.x() >= 0 {
            diff.x()
        } else {
            -diff.x()
        };
        let ady: i64 = if diff.y() >= 0 {
            diff.y()
        } else {
            -diff.y()
        };
        let wx: i64 = if self.diagonal.x >= 0 {
            self.diagonal.x
        } else {
            -self.diagonal.x
        };
        let wy: i64 = if self.diagonal.y >= 0 {
            self.diagonal.y
        } else {
            -self.diagonal.y
        };
        adx <= wx && ady <= wy
    }

    /// The tag name of a rect fragment.
    pub fn get_svg_tag_name(&self) -> (s: String)
        ensures
            s@ == "rect"@,
    {
        String::from_str("rect")
    }

    /// The attributes of the rect tag: anchor corner, diagonal extents
    /// and style, in the order they are written.
    pub fn get_svg_tag_properties(&self) -> (ps: Vec<(String, String)>)
        ensures
            pairs_view(ps@) == rect_props(*self),
    {
        let mut ps: Vec<(String, String)> = Vec::new();
        ps.push((String::from_str("x"), fixed_to_string(self.start.x)));
        ps.push((String::from_str("y"), fixed_to_string(self.start.y)));
        ps.push((String::from_str("width"), fixed_to_string(self.diagonal.x)));
        ps.push((String::from_str("height"), fixed_to_string(self.diagonal.y)));
        let mut style = String::from_str("fill:");
        style.append(self.fill.to_string().as_str());
        style.append(";stroke:");
        style.append(self.stroke_color.to_string().as_str());
        style.append(";stroke_width:");
        style.append(u64_to_string(self.stroke_width as u64).as_str());
        style.append(";");
        proof {
            assert(style@ =~= rect_style_str(*self));
        }
        ps.push((String::from_str("style"), style));
        proof {
            assert(pairs_view(ps@) =~= rect_props(*self));
        }
        ps
    }

    /// A rect fragment has no inner content.
    pub fn get_svg_inner_content(&self) -> (r: Option<String>)
        ensures
            r is None,
    {
        Option::None
    }

    /// The markup fragment of the rectangle.
    pub fn to_svg_tag(&self) -> (s: String)
        ensures
            s@ == Rect2::tag_spec(*self),
    {
        let name = self.get_svg_tag_name();
        let props = self.get_svg_tag_properties();
        let inner = self.get_svg_inner_content();
        compose_tag(name.as_str(), &props, &inner)
    }
}

} // verus!
