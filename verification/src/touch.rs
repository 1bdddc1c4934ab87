//! Touch input.
use vstd::prelude::*;

use crate::point::Point;

verus! {

/// The identifier of a finger on a touch surface.
#[derive(Debug, Clone, Copy, PartialEq, Eq, Structural, Hash)]
pub struct Finger(pub u64);

/// Something that happened on a touch surface.
#[derive(Debug, Clone, Copy, PartialEq, Eq, Structural)]
pub enum Event {
    /// A finger touched the surface.
    FingerPressed {
        /// Which finger.
        id: Finger,
        /// Where it touched.
        position: Point,
    },
    /// A finger moved on the surface.
    FingerMoved {
        /// Which finger.
        id: Finger,
        /// Where it is now.
        position: Point,
    },
    /// A finger left the surface.
    FingerLifted {
        /// Which finger.
        id: Finger,
        /// Where it left.
        position: Point,
    },
    /// The touch was interrupted.
    FingerLost {
        /// Which finger.
        id: Finger,
        /// Where it last was.
        position: Point,
    },
}

} // verus!
