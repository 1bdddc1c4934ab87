//! Placement of content inside the space it was given.
use vstd::prelude::*;

verus! {

/// Placement along an axis.
#[derive(Debug, Clone, Copy, PartialEq, Eq, Structural, Hash)]
pub enum Alignment {
    /// At the start of the axis.
    Start,
    /// In the middle of the axis.
    Center,
    /// At the end of the axis.
    End,
    /// Stretched over the whole axis.
    Fill,
}

/// Horizontal placement of text.
#[derive(Debug, Clone, Copy, PartialEq, Eq, Structural, Hash)]
pub enum Horizontal {
    /// Against the left edge.
    Left,
    /// Centered between the left and right edges.
    Center,
    /// Against the right edge.
    Right,
}

/// Vertical placement of text.
#[derive(Debug, Clone, Copy, PartialEq, Eq, Structural, Hash)]
pub enum Vertical {
    /// Against the top edge.
    Top,
    /// Centered between the top and bottom edges.
    Center,
    /// Against the bottom edge.
    Bottom,
}

} // verus!
