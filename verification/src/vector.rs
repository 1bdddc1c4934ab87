//! Displacements of the plane.
use vstd::prelude::*;

verus! {

/// A displacement, in units along each axis.
#[derive(Debug, Clone, Copy, PartialEq, Eq, Structural)]
pub struct Vector {
    /// The horizontal component.
    pub x: i32,
    /// The vertical component.
    pub y: i32,
}

impl Vector {
    /// The displacement with the given components.
    pub fn new(x: i32, y: i32) -> (v: Vector)
        ensures
            v.x == x,
            v.y == y,
    {
        Vector { x, y }
    }
}

/// A scroll offset: how far content is moved up and to the left, in units.
#[derive(Debug, Clone, Copy, PartialEq, Eq, Structural)]
pub struct Offset {
    /// The horizontal component.
    pub x: u32,
    /// The vertical component.
    pub y: u32,
}

impl Offset {
    /// The offset with the given components.
    pub fn new(x: u32, y: u32) -> (v: Offset)
        ensures
            v.x == x,
            v.y == y,
    {
        Offset { x, y }
    }
}

} // verus!
