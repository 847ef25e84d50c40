//! The canvas.
//!
//! A canvas owns an ordered, append-only sequence of drawables, tracks at
//! most one selected entry, and exposes creation, hit-testing,
//! transform-on-selection, property snapshots, and serialization of the
//! whole scene to one SVG document.

use vstd::prelude::*;
use vstd::string::StringExecFns;
use crate::fixed::FP_ONE;
use crate::fixed::FP_COORD_MAX;
use crate::fixed::FP_FIELD_MAX;
use crate::fixed::FP_ANGLE_MAX;
use crate::fixed::fmul;
use crate::fixed::scale_factor;
use crate::vector::Vector2;
use crate::color::Color;
use crate::line2d::Line2D;
use crate::circle::Circle;
use crate::circle::FP_RADIUS_MAX;
use crate::rect2d::Rect2;
use crate::props::Props;
use crate::props::LineProps;
use crate::props::RectProps;
use crate::props::CircleProps;
use crate::numfmt::dec_str;
use crate::numfmt::u64_to_string;
use crate::Drawable;

verus! {

/// Largest coordinate magnitude of the drawables a canvas holds and of
/// the points it hit-tests: the bound every factory demands and every
/// transform must re-establish.
pub const FP_CANVAS_COORD: i64 = 1_000_000_000_000;

/// Every drawable a canvas holds is well-formed.
pub open spec fn drawable_wf(d: Drawable) -> bool {
    match d {
        Drawable::Line(l) => l.wf(),
        Drawable::Circle(c) => c.wf(),
        Drawable::Rect2(r) => r.wf(),
    }
}

/// Every coordinate of a drawable a canvas holds stays within
/// `FP_CANVAS_COORD`, which keeps every hit test in bounds.
pub open spec fn drawable_bounded(d: Drawable) -> bool {
    match d {
        Drawable::Line(l) => {
            &&& -FP_CANVAS_COORD <= l.start.x <= FP_CANVAS_COORD
            &&& -FP_CANVAS_COORD <= l.start.y <= FP_CANVAS_COORD
            &&& -FP_CANVAS_COORD <= l.end.x <= FP_CANVAS_COORD
            &&& -FP_CANVAS_COORD <= l.end.y <= FP_CANVAS_COORD
        },
        Drawable::Circle(c) => {
            &&& -FP_CANVAS_COORD <= c.center.x <= FP_CANVAS_COORD
            &&& -FP_CANVAS_COORD <= c.center.y <= FP_CANVAS_COORD
        },
        Drawable::Rect2(r) => {
            &&& -FP_CANVAS_COORD <= r.start.x <= FP_CANVAS_COORD
            &&& -FP_CANVAS_COORD <= r.start.y <= FP_CANVAS_COORD
            &&& -FP_CANVAS_COORD <= r.diagonal.x <= FP_CANVAS_COORD
            &&& -FP_CANVAS_COORD <= r.diagonal.y <= FP_CANVAS_COORD
        },
    }
}

/// The hit test of one drawable.
pub open spec fn drawable_hit(d: Drawable, pos: Vector2) -> bool {
    match d {
        Drawable::Line(l) => Line2D::contains_spec(l, pos),
        Drawable::Circle(c) => Circle::contains_spec(c, pos),
        Drawable::Rect2(r) => Rect2::contains_spec(r, pos),
    }
}

/// The drawable a translation produces.
pub open spec fn drawable_translate_spec(d: Drawable, offset: Vector2) -> Drawable {
    match d {
        Drawable::Line(l) => Drawable::Line(Line2D::translate_spec(l, offset)),
        Drawable::Circle(c) => Drawable::Circle(Circle::translate_spec(c, offset)),
        Drawable::Rect2(r) => Drawable::Rect2(Rect2::translate_spec(r, offset)),
    }
}

/// The drawable a rotation produces; a circle is unchanged.
pub open spec fn drawable_rotate_spec(d: Drawable, angle: int) -> Drawable {
    match d {
        Drawable::Line(l) => Drawable::Line(Line2D::rotate_spec(l, angle)),
        Drawable::Circle(c) => Drawable::Circle(c),
        Drawable::Rect2(r) => Drawable::Rect2(Rect2::rotate_spec(r, angle)),
    }
}

/// The drawable a scaling produces.
pub open spec fn drawable_scale_spec(d: Drawable, c: int) -> Drawable {
    match d {
        Drawable::Line(l) => Drawable::Line(Line2D::scale_spec(l, c)),
        Drawable::Circle(ci) => Drawable::Circle(Circle::scale_spec(ci, c)),
        Drawable::Rect2(r) => Drawable::Rect2(Rect2::scale_spec(r, c)),
    }
}

/// What a translation of one drawable demands of its inputs, beyond
/// well-formedness: the shifted coordinates stay within the canvas bound.
pub open spec fn drawable_translate_req(d: Drawable, offset: Vector2) -> bool {
    &&& match d {
        Drawable::Line(l) => {
            &&& -FP_CANVAS_COORD <= l.start.x + offset.x <= FP_CANVAS_COORD
            &&& -FP_CANVAS_COORD <= l.start.y + offset.y <= FP_CANVAS_COORD
            &&& -FP_CANVAS_COORD <= l.end.x + offset.x <= FP_CANVAS_COORD
            &&& -FP_CANVAS_COORD <= l.end.y + offset.y <= FP_CANVAS_COORD
        },
        Drawable::Circle(c) => {
            &&& -FP_CANVAS_COORD <= c.center.x + offset.x <= FP_CANVAS_COORD
            &&& -FP_CANVAS_COORD <= c.center.y + offset.y <= FP_CANVAS_COORD
        },
        Drawable::Rect2(r) => {
            &&& -FP_CANVAS_COORD <= r.start.x + offset.x <= FP_CANVAS_COORD
            &&& -FP_CANVAS_COORD <= r.start.y + offset.y <= FP_CANVAS_COORD
        },
    }
}

/// What a rotation of one drawable demands of its inputs, beyond
/// well-formedness: the angle stays within the accepted range and the
/// rotated drawable stays within the canvas bound.
pub open spec fn drawable_rotate_req(d: Drawable, angle: int) -> bool {
    &&& -FP_ANGLE_MAX <= angle <= FP_ANGLE_MAX
    &&& drawable_bounded(drawable_rotate_spec(d, angle))
    &&& match d {
        Drawable::Line(l) => {
            &&& i64::MIN as int <= l.angle + angle <= i64::MAX as int
            &&& l.start.x + vstd::math::abs(l.end.x - l.start.x) + vstd::math::abs(
                l.end.y - l.start.y,
            ) <= FP_COORD_MAX
            &&& l.start.x - vstd::math::abs(l.end.x - l.start.x) - vstd::math::abs(
                l.end.y - l.start.y,
            ) >= -FP_COORD_MAX
            &&& l.start.y + vstd::math::abs(l.end.x - l.start.x) + vstd::math::abs(
                l.end.y - l.start.y,
            ) <= FP_COORD_MAX
            &&& l.start.y - vstd::math::abs(l.end.x - l.start.x) - vstd::math::abs(
                l.end.y - l.start.y,
            ) >= -FP_COORD_MAX
        },
        Drawable::Circle(c) => true,
        Drawable::Rect2(r) => -FP_ANGLE_MAX <= r.angle + angle <= FP_ANGLE_MAX,
    }
}

/// What a scaling of one drawable demands of its inputs, beyond
/// well-formedness: every scaled field stays within its bound and the
/// scaled drawable stays within the canvas bound.
pub open spec fn drawable_scale_req(d: Drawable, c: int) -> bool {
    &&& drawable_bounded(drawable_scale_spec(d, c))
    &&& match d {
        Drawable::Line(l) => {
            &&& -FP_FIELD_MAX <= fmul(l.end.x - l.start.x, scale_factor(c)) <= FP_FIELD_MAX
            &&& -FP_FIELD_MAX <= fmul(l.end.y - l.start.y, scale_factor(c)) <= FP_FIELD_MAX
            &&& -FP_FIELD_MAX <= fmul(
                crate::fixed::fnorm(l.end.x - l.start.x, l.end.y - l.start.y),
                scale_factor(c),
            ) <= FP_FIELD_MAX
            &&& -FP_COORD_MAX <= l.start.x + fmul(l.end.x - l.start.x, scale_factor(c))
                <= FP_COORD_MAX
            &&& -FP_COORD_MAX <= l.start.y + fmul(l.end.y - l.start.y, scale_factor(c))
                <= FP_COORD_MAX
        },
        Drawable::Circle(ci) => 0 <= fmul(ci.radius as int, scale_factor(c)) <= FP_RADIUS_MAX,
        Drawable::Rect2(r) => {
            &&& -FP_FIELD_MAX <= fmul(r.diagonal.x as int, scale_factor(c)) <= FP_FIELD_MAX
            &&& -FP_FIELD_MAX <= fmul(r.diagonal.y as int, scale_factor(c)) <= FP_FIELD_MAX
            &&& -FP_FIELD_MAX <= fmul(r.diagonal.len as int, scale_factor(c)) <= FP_FIELD_MAX
        },
    }
}

/// The snapshot of one drawable's fields.
pub open spec fn props_of(d: Drawable) -> Props {
    match d {
        Drawable::Line(l) => Props::Line(
            LineProps {
                start: l.start,
                end: l.end,
                angle: l.angle,
                len: l.len,
                stroke_color: l.stroke_color,
                stroke_width: l.stroke_width,
                fill: l.fill,
            },
        ),
        Drawable::Circle(c) => Props::Circle(
            CircleProps {
                center: c.center,
                radius: c.radius,
                stroke_color: c.stroke_color,
                stroke_width: c.stroke_width,
                fill: c.fill,
            },
        ),
        Drawable::Rect2(r) => Props::Rect(
            RectProps {
                start: r.start,
                end: Vector2::new_spec(r.start.x + r.diagonal.x, r.start.y + r.diagonal.y),
                angle: r.angle,
                stroke_color: r.stroke_color,
                stroke_width: r.stroke_width,
                fill: r.fill,
            },
        ),
    }
}

/// The markup fragment of one drawable.
pub open spec fn drawable_tag(d: Drawable) -> Seq<char> {
    match d {
        Drawable::Line(l) => Line2D::tag_spec(l),
        Drawable::Circle(c) => Circle::tag_spec(c),
        Drawable::Rect2(r) => Rect2::tag_spec(r),
    }
}

/// The concatenated fragments of the drawables from index `i` on, in
/// insertion order.
pub open spec fn drawables_svg_from(s: Seq<Drawable>, i: int) -> Seq<char>
    decreases s.len() - i,
{
    if i < 0 || i >= s.len() {
        Seq::<char>::empty()
    } else {
        drawable_tag(s[i]) + drawables_svg_from(s, i + 1)
    }
}

/// The opening tag of the exported document, carrying the canvas size.
pub open spec fn svg_header(width: u16, height: u16) -> Seq<char> {
    "<svg width=\""@ + dec_str(width as int) + "\" height=\""@ + dec_str(height as int) + "\">"@
}

/// The whole exported document: the header, each drawable's fragment in
/// insertion order, and the closing tag.
pub open spec fn canvas_svg(c: Canvas) -> Seq<char> {
    svg_header(c.width, c.height) + drawables_svg_from(c.drawables@, 0) + "</svg>"@
}

/// A canvas: an ordered, append-only sequence of drawables inside an
/// advisory viewport, with at most one selected entry.
#[derive(Debug)]
pub struct Canvas {
    pub drawables: Vec<Drawable>,
    pub width: u16,
    pub height: u16,
    pub selected_drawable: Option<usize>,
}

impl Canvas {
    /// The selection, when there is one, refers into the sequence, and
    /// every drawable is well-formed and within the canvas bound.
    pub open spec fn wf(self) -> bool {
        &&& match self.selected_drawable {
            Option::Some(i) => i < self.drawables@.len(),
            Option::None => true,
        }
        &&& forall|k: int|
            0 <= k < self.drawables@.len() ==> drawable_wf(#[trigger] self.drawables@[k])
                && drawable_bounded(self.drawables@[k])
    }

    /// An empty canvas of the given viewport size, with no selection.
    pub fn new(width: u16, height: u16) -> (c: Canvas)
        ensures
            c.drawables@ == Seq::<Drawable>::empty(),
            c.width == width,
            c.height == height,
            c.selected_drawable is None,
            c.wf(),
    {
        Canvas { drawables: Vec::new(), width, height, selected_drawable: Option::None }
    }

    /// Append a line built from the given endpoints and optional style.
    /// The selection is untouched.
    pub fn add_line(
        &mut self,
        start: Vector2,
        end: Vector2,
        stroke_color: Option<Color>,
        stroke_width: Option<u8>,
        fill: Option<Color>,
    )
        requires
            old(self).wf(),
            start.wf(),
            end.wf(),
            -FP_CANVAS_COORD <= start.x <= FP_CANVAS_COORD,
            -FP_CANVAS_COORD <= start.y <= FP_CANVAS_COORD,
            -FP_CANVAS_COORD <= end.x <= FP_CANVAS_COORD,
            -FP_CANVAS_COORD <= end.y <= FP_CANVAS_COORD,
            stroke_color matches Option::Some(c) ==> c.wf(),
            fill matches Option::Some(c) ==> c.wf(),
        ensures
            final(self).drawables@ == old(self).drawables@.push(
                Drawable::Line(Line2D::new_spec(start, end, stroke_color, stroke_width, fill)),
            ),
            final(self).width == old(self).width,
            final(self).height == old(self).height,
            final(self).selected_drawable == old(self).selected_drawable,
            final(self).wf(),
    {
        let line = Line2D::new(start, end, stroke_color, stroke_width, fill);
        self.drawables.push(Drawable::Line(line));
    }

    /// Append a circle built from the given center, radius and optional
    /// style.  The selection is untouched.
    pub fn add_circle(
        &mut self,
        center: Vector2,
        radius: i64,
        stroke_color: Option<Color>,
        stroke_width: Option<u8>,
        fill: Option<Color>,
    )
        requires
            old(self).wf(),
            center.wf(),
            0 <= radius <= FP_RADIUS_MAX,
            -FP_CANVAS_COORD <= center.x <= FP_CANVAS_COORD,
            -FP_CANVAS_COORD <= center.y <= FP_CANVAS_COORD,
            stroke_color matches Option::Some(c) ==> c.wf(),
            fill matches Option::Some(c) ==> c.wf(),
        ensures
            final(self).drawables@ == old(self).drawables@.push(
                Drawable::Circle(Circle::new_spec(center, radius, stroke_color, stroke_width, fill)),
            ),
            final(self).width == old(self).width,
            final(self).height == old(self).height,
            final(self).selected_drawable == old(self).selected_drawable,
            final(self).wf(),
    {
        let circle = Circle::new(center, radius, stroke_color, stroke_width, fill);
        self.drawables.push(Drawable::Circle(circle));
    }

    /// Append a rectangle built from the given opposite corners and
    /// optional style.  The selection is untouched.
    pub fn add_rect(
        &mut self,
        start: Vector2,
        end: Vector2,
        stroke_color: Option<Color>,
        stroke_width: Option<u8>,
        fill: Option<Color>,
    )
        requires
            old(self).wf(),
            start.wf(),
            end.wf(),
            -FP_CANVAS_COORD <= start.x <= FP_CANVAS_COORD,
            -FP_CANVAS_COORD <= start.y <= FP_CANVAS_COORD,
            -FP_CANVAS_COORD <= end.x - start.x <= FP_CANVAS_COORD,
            -FP_CANVAS_COORD <= end.y - start.y <= FP_CANVAS_COORD,
            stroke_color matches Option::Some(c) ==> c.wf(),
            fill matches Option::Some(c) ==> c.wf(),
        ensures
            final(self).drawables@ == old(self).drawables@.push(
                Drawable::Rect2(Rect2::new_spec(start, end, stroke_color, stroke_width, fill)),
            ),
            final(self).width == old(self).width,
            final(self).height == old(self).height,
            final(self).selected_drawable == old(self).selected_drawable,
            final(self).wf(),
    {
        let rect = Rect2::new(start, end, stroke_color, stroke_width, fill);
        self.drawables.push(Drawable::Rect2(rect));
    }

    /// Hit-test the point against the drawables in insertion order: the
    /// earliest hit becomes the selection and the call returns true.
    /// When nothing is hit the selection keeps its prior value and the
    /// call returns false.
    pub fn select_drawable_at(&mut self, pos: Vector2) -> (b: bool)
        requires
            old(self).wf(),
            pos.wf(),
            -FP_CANVAS_COORD <= pos.x <= FP_CANVAS_COORD,
            -FP_CANVAS_COORD <= pos.y <= FP_CANVAS_COORD,
        ensures
            b == exists|j: int|
                0 <= j < old(self).drawables@.len() && drawable_hit(
                    #[trigger] old(self).drawables@[j],
                    pos,
                ),
            !b ==> *final(self) == *old(self),
            b ==> final(self).drawables == old(self).drawables && final(self).width == old(
                self,
            ).width && final(self).height == old(self).height,
            b ==> (final(self).selected_drawable matches Option::Some(i) && 0 <= i < old(
                self,
            ).drawables@.len() && drawable_hit(old(self).drawables@[i as int], pos) && forall|k: int|
                0 <= k < i as int ==> !drawable_hit(#[trigger] old(self).drawables@[k], pos)),
            final(self).wf(),
    {
        let ghost ds = self.drawables@;
        let mut index: usize = 0;
        while index < self.drawables.len()
            invariant
                *self == *old(self),
                self.wf(),
                pos.wf(),
                -FP_CANVAS_COORD <= pos.x <= FP_CANVAS_COORD,
                -FP_CANVAS_COORD <= pos.y <= FP_CANVAS_COORD,
                ds == self.drawables@,
                0 <= index <= ds.len(),
                forall|k: int| 0 <= k < index as int ==> !drawable_hit(#[trigger] ds[k], pos),
            decreases ds.len() - index,
        {
            let d = self.drawables[index];
            let hit = match d {
                Drawable::Line(line) => line.contains(pos),
                Drawable::Circle(circle) => circle.contains(pos),
                Drawable::Rect2(rect) => rect.contains(pos),
            };
            if hit {
                self.selected_drawable = Option::Some(index);
                return true;
            }
            index = index + 1;
        }
        false
    }

    /// The snapshot of the selected drawable's current fields, or an
    /// error when no selection is active.
    pub fn get_selected_drawable_properties(&self) -> (r: Result<Props, ()>)
        requires
            self.wf(),
        ensures
            (r is Ok) == (self.selected_drawable is Some),
            self.selected_drawable matches Option::Some(i) ==> r == Result::<Props, ()>::Ok(
                props_of(self.drawables@[i as int]),
            ),
    {
        match self.selected_drawable {
            Option::Some(index) => {
                let d = self.drawables[index];
                match d {
                    Drawable::Line(line) => Result::Ok(
                        Props::Line(
                            LineProps {
                                start: line.start(),
                                end: line.end(),
                                angle: line.angle(),
                                len: line.len(),
                                stroke_color: line.stroke_color(),
                                stroke_width: line.stroke_width(),
                                fill: line.fill(),
                            },
                        ),
                    ),
                    Drawable::Circle(circle) => Result::Ok(
                        Props::Circle(
                            CircleProps {
                                center: circle.center(),
                                radius: circle.radius(),
                                stroke_color: circle.stroke_color(),
                                stroke_width: circle.stroke_width(),
                                fill: circle.fill(),
                            },
                        ),
                    ),
                    Drawable::Rect2(rect) => Result::Ok(
                        Props::Rect(
                            RectProps {
                                start: rect.start(),
                                end: rect.end(),
                                angle: rect.angle(),
                                stroke_color: rect.stroke_color(),
                                stroke_width: rect.stroke_width(),
                                fill: rect.fill(),
                            },
                        ),
                    ),
                }
            },
            Option::None => Result::Err(()),
        }
    }

    /// Shift the selected drawable by the offset.  With no selection
    /// active: return false and leave the canvas unchanged.
    pub fn translate_selected_drawable(&mut self, offset: Vector2) -> (b: bool)
        requires
            old(self).wf(),
            old(self).selected_drawable matches Option::Some(i) ==> drawable_translate_req(
                old(self).drawables@[i as int],
                offset,
            ),
        ensures
            b == (old(self).selected_drawable is Some),
            old(self).selected_drawable is None ==> *final(self) == *old(self),
            old(self).selected_drawable matches Option::Some(i) ==> final(self).drawables@ == old(
                self,
            ).drawables@.update(
                i as int,
                drawable_translate_spec(old(self).drawables@[i as int], offset),
            ),
            final(self).width == old(self).width,
            final(self).height == old(self).height,
            final(self).selected_drawable == old(self).selected_drawable,
            final(self).wf(),
    {
        match self.selected_drawable {
            Option::Some(index) => {
                let d = self.drawables[index];
                let nd = match d {
                    Drawable::Line(mut line) => {
                        line.translate(offset);
                        Drawable::Line(line)
                    },
                    Drawable::Circle(mut circle) => {
                        circle.translate(offset);
                        Drawable::Circle(circle)
                    },
                    Drawable::Rect2(mut rect) => {
                        rect.translate(offset);
                        Drawable::Rect2(rect)
                    },
                };
                self.drawables[index] = nd;
                true
            },
            Option::None => false,
        }
    }

    /// Rotate the selected drawable.  With no selection active: return
    /// false and leave the canvas unchanged.
    pub fn rotate_selected_drawable(&mut self, angle: i64) -> (b: bool)
        requires
            old(self).wf(),
            old(self).selected_drawable matches Option::Some(i) ==> drawable_rotate_req(
                old(self).drawables@[i as int],
                angle as int,
            ),
        ensures
            b == (old(self).selected_drawable is Some),
            old(self).selected_drawable is None ==> *final(self) == *old(self),
            old(self).selected_drawable matches Option::Some(i) ==> final(self).drawables@ == old(
                self,
            ).drawables@.update(
                i as int,
                drawable_rotate_spec(old(self).drawables@[i as int], angle as int),
            ),
            final(self).width == old(self).width,
            final(self).height == old(self).height,
            final(self).selected_drawable == old(self).selected_drawable,
            final(self).wf(),
    {
        match self.selected_drawable {
            Option::Some(index) => {
                let d = self.drawables[index];
                let nd = match d {
                    Drawable::Line(mut line) => {
                        line.rotate(angle);
                        Drawable::Line(line)
                    },
                    Drawable::Circle(mut circle) => {
                        circle.rotate(angle);
                        Drawable::Circle(circle)
                    },
                    Drawable::Rect2(mut rect) => {
                        rect.rotate(angle);
                        Drawable::Rect2(rect)
                    },
                };
                self.drawables[index] = nd;
                true
            },
            Option::None => false,
        }
    }

    /// Scale the selected drawable; a zero factor is corrected to one.
    /// With no selection active: return false and leave the canvas
    /// unchanged.
    pub fn scale_selected_drawable(&mut self, c: i64) -> (b: bool)
        requires
            old(self).wf(),
            old(self).selected_drawable matches Option::Some(i) ==> drawable_scale_req(
                old(self).drawables@[i as int],
                c as int,
            ),
        ensures
            b == (old(self).selected_drawable is Some),
            old(self).selected_drawable is None ==> *final(self) == *old(self),
            old(self).selected_drawable matches Option::Some(i) ==> final(self).drawables@ == old(
                self,
            ).drawables@.update(
                i as int,
                drawable_scale_spec(old(self).drawables@[i as int], c as int),
            ),
            final(self).width == old(self).width,
            final(self).height == old(self).height,
            final(self).selected_drawable == old(self).selected_drawable,
            final(self).wf(),
    {
        match self.selected_drawable {
            Option::Some(index) => {
                let d = self.drawables[index];
                let nd = match d {
                    Drawable::Line(mut line) => {
                        line.scale(c);
                        Drawable::Line(line)
                    },
                    Drawable::Circle(mut circle) => {
                        circle.scale(c);
                        Drawable::Circle(circle)
                    },
                    Drawable::Rect2(mut rect) => {
                        rect.scale(c);
                        Drawable::Rect2(rect)
                    },
                };
                self.drawables[index] = nd;
                true
            },
            Option::None => false,
        }
    }

    /// Serialize the whole scene: the opening tag carrying the canvas
    /// size, every drawable's fragment in insertion order, and the
    /// closing tag.
    pub fn to_svg(&self) -> (s: String)
        ensures
            s@ == canvas_svg(*self),
    {
        let ghost ds = self.drawables@;
        let mut s = String::from_str("<svg width=\"");
        s.append(u64_to_string(self.width as u64).as_str());
        s.append("\" height=\"");
        s.append(u64_to_string(self.height as u64).as_str());
        s.append("\">");
        proof {
            assert(s@ =~= svg_header(self.width, self.height));
        }
        let mut index: usize = 0;
        while index < self.drawables.len()
            invariant
                ds == self.drawables@,
                0 <= index <= ds.len(),
                s@ + drawables_svg_from(ds, index as int) == svg_header(self.width, self.height)
                    + drawables_svg_from(ds, 0),
            decreases ds.len() - index,
        {
            let ghost before = s@;
            let d = &self.drawables[index];
            let tag = match d {
                Drawable::Line(line) => line.to_svg_tag(),
                Drawable::Circle(circle) => circle.to_svg_tag(),
                Drawable::Rect2(rect) => rect.to_svg_tag(),
            };
            s.append(tag.as_str());
            proof {
                assert(s@ =~= before + drawable_tag(ds[index as int]));
                assert(s@ + drawables_svg_from(ds, index + 1) =~= before + drawables_svg_from(
                    ds,
                    index as int,
                ));
            }
            index = index + 1;
        }
        s.append("</svg>");
        proof {
            assert(s@ =~= canvas_svg(*self));
        }
        s
    }
}

/// A canvas holding exactly one line serializes to exactly the opening
/// tag with the canvas size, that line's single fragment, and the closing
/// tag: one `<line .../>` inside one `<svg>...</svg>` pair and nothing
/// else.
pub proof fn lemma_svg_single_line(c: Canvas, l: Line2D)
    requires
        c.drawables@ == seq![Drawable::Line(l)],
    ensures
        canvas_svg(c) == svg_header(c.width, c.height) + Line2D::tag_spec(l) + "</svg>"@,
{
    let ds = c.drawables@;
    assert(drawables_svg_from(ds, 1) =~= Seq::<char>::empty());
    assert(drawables_svg_from(ds, 0) =~= Line2D::tag_spec(l));
    assert(canvas_svg(c) =~= svg_header(c.width, c.height) + Line2D::tag_spec(l) + "</svg>"@);
}

} // verus!
