//! Property snapshots.
//!
//! Read-only copies of one drawable's current fields, handed across the
//! canvas boundary: mutating a snapshot never writes back to the canvas.

use vstd::prelude::*;
use crate::vector::Vector2;
use crate::color::Color;

verus! {

/// A snapshot of a line's fields.
#[derive(Clone, Copy, Debug, PartialEq, Eq, Structural)]
pub struct LineProps {
    pub start: Vector2,
    pub end: Vector2,
    pub angle: i64,
    pub len: i64,
    pub stroke_color: Color,
    pub stroke_width: u8,
    pub fill: Color,
}

/// A snapshot of a rectangle's fields.
#[derive(Clone, Copy, Debug, PartialEq, Eq, Structural)]
pub struct RectProps {
    pub start: Vector2,
    pub end: Vector2,
    pub angle: i64,
    pub stroke_color: Color,
    pub stroke_width: u8,
    pub fill: Color,
}

/// A snapshot of a circle's fields.
#[derive(Clone, Copy, Debug, PartialEq, Eq, Structural)]
pub struct CircleProps {
    pub center: Vector2,
    pub radius: i64,
    pub stroke_color: Color,
    pub stroke_width: u8,
    pub fill: Color,
}

/// A tagged snapshot of one drawable's fields.
#[derive(Clone, Copy, Debug, PartialEq, Eq, Structural)]
pub enum Props {
    Line(LineProps),
    Rect(RectProps),
    Circle(CircleProps),
}

} // verus!
