//! What fills the inside of a shape.
use vstd::prelude::*;

use crate::color::Color;

verus! {

/// The fill of a shape.
#[derive(Debug, Clone, Copy, PartialEq, Eq, Structural)]
pub enum Background {
    /// One color all over.
    Color(Color),
}

} // verus!
