//! Window events.
use vstd::prelude::*;

verus! {

/// Something that happened to the window.
#[derive(Debug, Clone, Copy, PartialEq, Eq, Structural)]
pub enum Event {
    /// The window was resized.
    Resized {
        /// The new width, in units.
        width: u32,
        /// The new height, in units.
        height: u32,
    },
}

} // verus!
