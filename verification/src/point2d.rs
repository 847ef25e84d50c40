//! Bare points.
//!
//! A point holds plain coordinates with none of the cached polar form a
//! vector carries; the front-end state uses it to remember clicks.

use vstd::prelude::*;

verus! {

/// A point in 2d cartesian space.
#[derive(Clone, Copy, Debug, PartialEq, Eq, Structural)]
pub struct Point2D {
    pub x: i64,
    pub y: i64,
}

impl Point2D {
    /// Build a point from its coordinates.
    pub fn new(x: i64, y: i64) -> (p: Point2D)
        ensures
            p.x == x,
            p.y == y,
    {
        Point2D { x, y }
    }

    /// The horizontal coordinate.
    pub fn x(&self) -> (r: i64)
        ensures
            r == self.x,
    {
        self.x
    }

    /// The vertical coordinate.
    pub fn y(&self) -> (r: i64)
        ensures
            r == self.y,
    {
        self.y
    }

    /// The componentwise sum of two points.
    pub fn add(self, rhs: Point2D) -> (p: Point2D)
        requires
            i64::MIN as int <= self.x + rhs.x <= i64::MAX as int,
            i64::MIN as int <= self.y + rhs.y <= i64::MAX as int,
        ensures
            p.x == self.x + rhs.x,
            p.y == self.y + rhs.y,
    {
        Point2D { x: self.x + rhs.x, y: self.y + rhs.y }
    }
}

} // verus!
