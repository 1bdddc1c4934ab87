//! Positions inside laid out text.
use vstd::prelude::*;

use crate::vector::Vector;

verus! {

/// The result of hit-testing a point against laid out text.
#[derive(Debug, Clone, Copy, PartialEq, Eq, Structural)]
pub enum Hit {
    /// The point lies inside the character at this offset.
    CharOffset(usize),
    /// The point lies outside every character; the nearest one is at this
    /// offset, and the vector leads from its center to the point.
    NearestCharOffset(usize, Vector),
}

impl Hit {
    /// The offset at which a cursor placed by this hit stands: after the
    /// nearest character where the point lies to the right of its center.
    pub open spec fn cursor_spec(self) -> int {
        match self {
            Hit::CharOffset(i) => i as int,
            Hit::NearestCharOffset(i, delta) => if delta.x > 0 && i < usize::MAX {
                i + 1
            } else {
                i as int
            },
        }
    }

    /// The offset at which a cursor placed by this hit stands.
    pub fn cursor(self) -> (offset: usize)
        ensures
            offset == self.cursor_spec(),
    {
        match self {
            Hit::CharOffset(i) => i,
            Hit::NearestCharOffset(i, delta) => if delta.x > 0 && i < usize::MAX {
                i + 1
            } else {
                i
            },
        }
    }
}

} // verus!
