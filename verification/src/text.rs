//! Text entities.
//!
//! A text carries its string, the top-left corner of its bounding box, a
//! decorative rotation and a fill color.  Scaling is a no-op by design,
//! and text is never hit-tested.

use vstd::prelude::*;
use vstd::string::StringExecFns;
use crate::fixed::FP_ONE;
use crate::fixed::FP_COORD_MAX;
use crate::fixed::FP_ANGLE_MAX;
use crate::vector::Vector2;
use crate::color::Color;
use crate::numfmt::fixed_str;
use crate::numfmt::fixed_to_string;
use crate::svg::tag_str;
use crate::svg::pairs_view;
use crate::svg::compose_tag;

verus! {

/// The attributes of a text tag, in the order they are written.
pub open spec fn text_props(t: Text) -> Seq<(Seq<char>, Seq<char>)> {
    seq![("x"@, fixed_str(t.pos.x as int)), ("y"@, fixed_str(t.pos.y as int))]
}

/// A piece of text anchored at the top-left corner of its bounding box.
#[derive(Clone, Debug)]
pub struct Text {
    pub text: String,
    pub pos: Vector2,
    pub angle: i64,
    pub fill: Color,
}

impl Text {
    /// Position, rotation and fill of a text the library built stay
    /// within their bounds.
    pub open spec fn wf(self) -> bool {
        &&& self.pos.wf()
        &&& -FP_ANGLE_MAX <= self.angle <= FP_ANGLE_MAX
        &&& self.fill.wf()
    }

    /// The text `translate` produces: the anchor shifted.
    pub open spec fn translate_spec(t: Text, offset: Vector2) -> Text {
        (Text { pos: Vector2::new_spec(t.pos.x + offset.x, t.pos.y + offset.y), ..t })
    }

    /// The text `rotate` produces: the decorative angle accumulated; the
    /// geometry is unchanged.
    pub open spec fn rotate_spec(t: Text, angle: int) -> Text {
        (Text { angle: (t.angle + angle) as i64, ..t })
    }

    /// The markup fragment of the text: the literal string as inner
    /// content.
    pub open spec fn tag_spec(t: Text) -> Seq<char> {
        tag_str("text"@, text_props(t), Option::Some(t.text@))
    }

    /// Build a text from its content, anchor and optional angle and fill;
    /// the angle defaults to zero and the fill to black.
    pub fn new(text: String, pos: Vector2, angle: Option<i64>, fill: Option<Color>) -> (t: Text)
        requires
            pos.wf(),
            angle matches Option::Some(a) ==> -FP_ANGLE_MAX <= a <= FP_ANGLE_MAX,
            fill matches Option::Some(c) ==> c.wf(),
        ensures
            t.text == text,
            t.pos == pos,
            t.angle == match angle {
                Option::Some(a) => a,
                Option::None => 0i64,
            },
            t.fill == match fill {
                Option::Some(c) => c,
                Option::None => Color(255, 255, 255, FP_ONE),
            },
            t.wf(),
    {
        Text {
            text,
            pos,
            angle: match angle {
                Option::Some(a) => a,
                Option::None => 0,
            },
            fill: match fill {
                Option::Some(c) => c,
                Option::None => Color::black(),
            },
        }
    }

    /// The text content.
    pub fn text(&self) -> (r: &String)
        ensures
            r == &self.text,
    {
        &self.text
    }

    /// The anchor: the top-left corner of the bounding box.
    pub fn pos(&self) -> (r: Vector2)
        ensures
            r == self.pos,
    {
        self.pos
    }

    /// The decorative rotation, in micro-radians.
    pub fn angle(&self) -> (r: i64)
        ensures
            r == self.angle,
    {
        self.angle
    }

    /// The fill color.
    pub fn fill(&self) -> (r: Color)
        ensures
            r == self.fill,
    {
        self.fill
    }

    /// Shift the anchor by the offset.
    pub fn translate(&mut self, offset: Vector2)
        requires
            old(self).wf(),
            -FP_COORD_MAX <= old(self).pos.x + offset.x <= FP_COORD_MAX,
            -FP_COORD_MAX <= old(self).pos.y + offset.y <= FP_COORD_MAX,
        ensures
            *final(self) == Text::translate_spec(*old(self), offset),
            final(self).text == old(self).text,
            final(self).wf(),
    {
        self.pos.translate(offset);
    }

    /// Accumulate the decorative rotation; no geometric effect.
    pub fn rotate(&mut self, angle: i64)
        requires
            old(self).wf(),
            -FP_ANGLE_MAX <= old(self).angle + angle <= FP_ANGLE_MAX,
        ensures
            *final(self) == Text::rotate_spec(*old(self), angle as int),
            final(self).wf(),
    {
        self.angle = self.angle + angle;
    }

    /// Scaling text is a no-op by design.
    pub fn scale(&mut self, c: i64)
        ensures
            *final(self) == *old(self),
    {
        let _ = c;
    }

    /// Text is never hit-tested: the test is always false.
    pub fn contains(&self, point: Vector2) -> (r: bool)
        ensures
            !r,
    {
        let _ = point;
        false
    }

    /// The tag name of a text fragment.
    pub fn get_svg_tag_name(&self) -> (s: String)
        ensures
            s@ == "text"@,
    {
        String::from_str("text")
    }

    /// The attributes of the text tag: the anchor coordinates.
    pub fn get_svg_tag_properties(&self) -> (ps: Vec<(String, String)>)
        ensures
            pairs_view(ps@) == text_props(*self),
    {
        let mut ps: Vec<(String, String)> = Vec::new();
        ps.push((String::from_str("x"), fixed_to_string(self.pos.x)));
        ps.push((String::from_str("y"), fixed_to_string(self.pos.y)));
        proof {
            assert(pairs_view(ps@) =~= text_props(*self));
        }
        ps
    }

    /// The inner content of a text fragment: the literal string.
    pub fn get_svg_inner_content(&self) -> (r: Option<String>)
        ensures
            r matches Option::Some(s) && s@ == self.text@,
    {
        Option::Some(self.text.clone())
    }

    /// The markup fragment of the text.
    pub fn to_svg_tag(&self) -> (s: String)
        ensures
            s@ == Text::tag_spec(*self),
    {
        let name = self.get_svg_tag_name();
        let props = self.get_svg_tag_properties();
        let inner = self.get_svg_inner_content();
        compose_tag(name.as_str(), &props, &inner)
    }
}

} // verus!
