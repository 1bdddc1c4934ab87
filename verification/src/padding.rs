//! Space kept free around content.
use vstd::prelude::*;

verus! {

/// The space kept free on each side of some content, in units.
#[derive(Debug, Clone, Copy, PartialEq, Eq, Structural, Hash)]
pub struct Padding {
    /// Space above the content.
    pub top: u16,
    /// Space to the right of the content.
    pub right: u16,
    /// Space below the content.
    pub bottom: u16,
    /// Space to the left of the content.
    pub left: u16,
}

impl Padding {
    /// The same space on all four sides.
    pub fn new(padding: u16) -> (p: Padding)
        ensures
            p == (Padding { top: padding, right: padding, bottom: padding, left: padding }),
    {
        Padding { top: padding, right: padding, bottom: padding, left: padding }
    }

    /// No space on any side.
    pub fn zero() -> (p: Padding)
        ensures
            p == (Padding { top: 0, right: 0, bottom: 0, left: 0 }),
    {
        Padding { top: 0, right: 0, bottom: 0, left: 0 }
    }

    /// The space taken above and below together.
    pub open spec fn vertical_spec(self) -> int {
        self.top + self.bottom
    }

    /// The space taken left and right together.
    pub open spec fn horizontal_spec(self) -> int {
        self.left + self.right
    }

    /// The space taken above and below together.
    pub fn vertical(self) -> (v: u32)
        ensures
            v == self.vertical_spec(),
    {
        self.top as u32 + self.bottom as u32
    }

    /// The space taken left and right together.
    pub fn horizontal(self) -> (h: u32)
        ensures
            h == self.horizontal_spec(),
    {
        self.left as u32 + self.right as u32
    }
}

} // verus!
