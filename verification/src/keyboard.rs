//! Keyboard input.
use vstd::prelude::*;

verus! {

/// The modifier keys that are held down.
#[derive(Debug, Clone, Copy, PartialEq, Eq, Structural, Hash)]
pub struct Modifiers {
    /// Whether a shift key is held.
    pub shift: bool,
    /// Whether a control key is held.
    pub control: bool,
    /// Whether an alt key is held.
    pub alt: bool,
    /// Whether a logo key is held.
    pub logo: bool,
}

/// Something that happened on the keyboard.
#[derive(Debug, Clone, Copy, PartialEq, Eq, Structural)]
pub enum Event {
    /// A key was pressed.
    KeyPressed {
        /// The code of the key.
        key_code: u32,
        /// The modifiers held at that moment.
        modifiers: Modifiers,
    },
    /// A key was released.
    KeyReleased {
        /// The code of the key.
        key_code: u32,
        /// The modifiers held at that moment.
        modifiers: Modifiers,
    },
    /// A character was typed.
    CharacterReceived(char),
    /// The modifiers that are held changed.
    ModifiersChanged(Modifiers),
}

} // verus!
