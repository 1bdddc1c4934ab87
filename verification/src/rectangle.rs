//! Axis-aligned rectangles and hit-testing.
use vstd::prelude::*;

use crate::point::Point;
use crate::size::Size;
use crate::units::{clamp_i32, to_i32};

verus! {

/// An axis-aligned rectangle: the position of its top-left corner and its
/// extent.
#[derive(Debug, Clone, Copy, PartialEq, Eq, Structural)]
pub struct Rectangle {
    /// Horizontal coordinate of the top-left corner.
    pub x: i32,
    /// Vertical coordinate of the top-left corner.
    pub y: i32,
    /// Horizontal extent.
    pub width: u32,
    /// Vertical extent.
    pub height: u32,
}

impl Rectangle {
    /// The rectangle with the given top-left corner and extent.
    pub fn new(top_left: Point, size: Size) -> (r: Rectangle)
        ensures
            r == (Rectangle { x: top_left.x, y: top_left.y, width: size.width, height: size.height }),
    {
        Rectangle { x: top_left.x, y: top_left.y, width: size.width, height: size.height }
    }

    /// The rectangle of the given extent whose top-left corner is the origin.
    pub fn with_size(size: Size) -> (r: Rectangle)
        ensures
            r == (Rectangle { x: 0, y: 0, width: size.width, height: size.height }),
    {
        Rectangle { x: 0, y: 0, width: size.width, height: size.height }
    }

    /// The coordinate just past the right edge.
    pub open spec fn right(self) -> int {
        self.x + self.width
    }

    /// The coordinate just past the bottom edge.
    pub open spec fn bottom(self) -> int {
        self.y + self.height
    }

    /// Whether `point` lies in the rectangle. The left and top edges belong to
    /// the rectangle, the right and bottom edges do not.
    pub open spec fn contains_spec(self, point: Point) -> bool {
        &&& self.x <= point.x < self.right()
        &&& self.y <= point.y < self.bottom()
    }

    /// Whether every point of `inner` lies between the edges of this
    /// rectangle, the far edges included.
    pub open spec fn encloses(self, inner: Rectangle) -> bool {
        &&& self.x <= inner.x
        &&& self.y <= inner.y
        &&& inner.right() <= self.right()
        &&& inner.bottom() <= self.bottom()
    }

    /// The position of the top-left corner.
    pub fn position(&self) -> (p: Point)
        ensures
            p.x == self.x,
            p.y == self.y,
    {
        Point { x: self.x, y: self.y }
    }

    /// The extent of the rectangle.
    pub fn size(&self) -> (s: Size)
        ensures
            s.width == self.width,
            s.height == self.height,
    {
        Size { width: self.width, height: self.height }
    }

    /// The horizontal coordinate of the center, rounded towards the left edge.
    pub fn center_x(&self) -> (c: i32)
        ensures
            c == clamp_i32(self.x + self.width / 2),
    {
        to_i32(self.x as i64 + (self.width / 2) as i64)
    }

    /// The vertical coordinate of the center, rounded towards the top edge.
    pub fn center_y(&self) -> (c: i32)
        ensures
            c == clamp_i32(self.y + self.height / 2),
    {
        to_i32(self.y as i64 + (self.height / 2) as i64)
    }

    /// Hit-test: whether `point` lies in the rectangle, by axis-aligned
    /// containment with an inclusive lower and an exclusive upper bound on
    /// each axis.
    pub fn contains(&self, point: Point) -> (hit: bool)
        ensures
            hit == self.contains_spec(point),
    {
        self.x <= point.x && (point.x as i64) < self.x as i64 + self.width as i64
            && self.y <= point.y && (point.y as i64) < self.y as i64 + self.height as i64
    }
}

} // verus!
