//! Mouse input.
use vstd::prelude::*;

use crate::point::Point;
use crate::vector::Vector;

verus! {

/// A button of a mouse.
#[derive(Debug, Clone, Copy, PartialEq, Eq, Structural, Hash)]
pub enum Button {
    /// The left button.
    Left,
    /// The right button.
    Right,
    /// The middle button, often the wheel.
    Middle,
    /// Another button, by its number.
    Other(u8),
}

/// Something that happened to the mouse.
#[derive(Debug, Clone, Copy, PartialEq, Eq, Structural)]
pub enum Event {
    /// The cursor entered the window.
    CursorEntered,
    /// The cursor left the window.
    CursorLeft,
    /// The cursor moved.
    CursorMoved {
        /// Where the cursor is now.
        position: Point,
    },
    /// A button was pressed.
    ButtonPressed(Button),
    /// A button was released.
    ButtonReleased(Button),
    /// The wheel was scrolled.
    WheelScrolled {
        /// How far, along each axis.
        delta: Vector,
    },
}

} // verus!
