//! A 2D vector-graphics scene model: a canvas owns an ordered collection of
//! drawable entities (lines, circles, rectangles, text) that can be created,
//! hit-tested, transformed and serialized to an SVG document.
//!
//! All scalar quantities (coordinates, lengths, angles, alpha channels) are
//! fixed-point values: signed 64-bit integers counting micro-units, so that
//! every geometric operation is ordinary integer arithmetic with a proved
//! contract.  Angles are micro-radians.

pub mod fixed;
pub mod trig;
pub mod app_state;
pub mod canvas;
pub mod circle;
pub mod color;
pub mod line2d;
pub mod numfmt;
pub mod point2d;
pub mod props;
pub mod rect2d;
pub mod svg;
pub mod text;
pub mod vector;

use vstd::prelude::*;

verus! {

/// A drawable entity of the canvas: one of the closed set of variants,
/// dispatched by exhaustive matching.
#[derive(Clone, Copy, Debug)]
pub enum Drawable {
    Line(line2d::Line2D),
    Circle(circle::Circle),
    Rect2(rect2d::Rect2),
}

} // verus!

pub use canvas::Canvas;
pub use circle::Circle;
pub use color::Color;
pub use color::color_from_hex;
pub use line2d::Line2D as Line;
pub use line2d::Line2D;
pub use props::Props;
pub use props::CircleProps;
pub use props::RectProps;
pub use props::LineProps;
pub use rect2d::Rect2;
pub use text::Text;
pub use vector::Vector2;
pub use point2d::Point2D;
pub use app_state::AppState;
pub use app_state::Message;

pub use fixed::FP_ONE;
pub use fixed::FP_PI;
pub use fixed::FP_HALF_PI;
pub use fixed::FP_QUARTER_PI;
pub use fixed::FP_TAU;
