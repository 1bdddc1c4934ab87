//! Extents of the plane.
use vstd::prelude::*;

use crate::padding::Padding;
use crate::units::{add_u32, clamp_u32};

verus! {

/// An extent: a width and a height, in units.
#[derive(Debug, Clone, Copy, PartialEq, Eq, Structural)]
pub struct Size {
    /// The horizontal extent.
    pub width: u32,
    /// The vertical extent.
    pub height: u32,
}

impl Size {
    /// The extent with the given width and height.
    pub fn new(width: u32, height: u32) -> (s: Size)
        ensures
            s.width == width,
            s.height == height,
    {
        Size { width, height }
    }

    /// The empty extent.
    pub fn zero() -> (s: Size)
        ensures
            s.width == 0,
            s.height == 0,
    {
        Size { width: 0, height: 0 }
    }

    /// This extent grown by `padding` on all four sides; each side saturates.
    pub open spec fn padded(self, padding: Padding) -> Size {
        Size {
            width: clamp_u32(self.width + padding.horizontal_spec()),
            height: clamp_u32(self.height + padding.vertical_spec()),
        }
    }

    /// Grows the extent by `padding`.
    pub fn pad(self, padding: Padding) -> (s: Size)
        ensures
            s == self.padded(padding),
    {
        Size {
            width: add_u32(self.width, padding.horizontal()),
            height: add_u32(self.height, padding.vertical()),
        }
    }
}

} // verus!
