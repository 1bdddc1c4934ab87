//! The look of a toggler.
use vstd::prelude::*;

use crate::color::Color;

verus! {

/// The appearance of a toggler.
#[derive(Debug, Clone, Copy, PartialEq, Eq, Structural)]
pub struct Style {
    /// The color of the track.
    pub background: Color,
    /// The color of the border of the track, where it is not that of the
    /// track.
    pub background_border: Option<Color>,
    /// The color of the knob.
    pub foreground: Color,
    /// The color of the border of the knob, where it is not that of the knob.
    pub foreground_border: Option<Color>,
}

/// The styles of a toggler, one for each state of interaction and each
/// position of the switch.
#[derive(Debug, Clone, Copy, PartialEq, Eq, Structural)]
pub struct StyleSheet {
    /// The style of a toggler that is on and that the cursor is not over.
    pub active_on: Style,
    /// The style of a toggler that is off and that the cursor is not over.
    pub active_off: Style,
    /// The style of a toggler that is on and that the cursor is over.
    pub hovered_on: Style,
    /// The style of a toggler that is off and that the cursor is over.
    pub hovered_off: Style,
}

impl StyleSheet {
    /// The style for the given state of interaction and position of the
    /// switch.
    pub open spec fn style_spec(self, is_mouse_over: bool, is_active: bool) -> Style {
        if is_mouse_over {
            if is_active {
                self.hovered_on
            } else {
                self.hovered_off
            }
        } else {
            if is_active {
                self.active_on
            } else {
                self.active_off
            }
        }
    }

    /// The style for the given state of interaction and position of the
    /// switch.
    pub fn style(&self, is_mouse_over: bool, is_active: bool) -> (style: Style)
        ensures
            style == self.style_spec(is_mouse_over, is_active),
    {
        if is_mouse_over {
            if is_active {
                self.hovered_on
            } else {
                self.hovered_off
            }
        } else {
            if is_active {
                self.active_on
            } else {
                self.active_off
            }
        }
    }

    /// The style sheet of a toggler that the application did not style: a
    /// green track when on, a grey one when off, and a white knob that turns
    /// light grey under the cursor.
    pub open spec fn default_spec() -> StyleSheet {
        let on = Style {
            background: Color { r: 0, g: 255, b: 0, a: 255 },
            background_border: None,
            foreground: Color { r: 255, g: 255, b: 255, a: 255 },
            foreground_border: None,
        };
        let off = Style { background: Color { r: 179, g: 179, b: 179, a: 255 }, ..on };
        let hover = Color { r: 242, g: 242, b: 242, a: 255 };
        StyleSheet {
            active_on: on,
            active_off: off,
            hovered_on: Style { foreground: hover, ..on },
            hovered_off: Style { foreground: hover, ..off },
        }
    }

    /// The style sheet of a toggler that the application did not style.
    pub fn default() -> (sheet: StyleSheet)
        ensures
            sheet == StyleSheet::default_spec(),
    {
        let on = Style {
            background: Color { r: 0, g: 255, b: 0, a: 255 },
            background_border: None,
            foreground: Color { r: 255, g: 255, b: 255, a: 255 },
            foreground_border: None,
        };
        let off = Style { background: Color { r: 179, g: 179, b: 179, a: 255 }, ..on };
        let hover = Color { r: 242, g: 242, b: 242, a: 255 };
        StyleSheet {
            active_on: on,
            active_off: off,
            hovered_on: Style { foreground: hover, ..on },
            hovered_off: Style { foreground: hover, ..off },
        }
    }
}

} // verus!
