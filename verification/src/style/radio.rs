//! The look of a radio button.
use vstd::prelude::*;

use crate::background::Background;
use crate::color::Color;

verus! {

/// The appearance of a radio button.
#[derive(Debug, Clone, Copy, PartialEq, Eq, Structural)]
pub struct Style {
    /// The fill of the circle.
    pub background: Background,
    /// The color of the dot of a selected button.
    pub dot_color: Color,
    /// The width of the border of the circle.
    pub border_width: u32,
    /// The color of the border of the circle.
    pub border_color: Color,
    /// The color of the label, where it is not the inherited one.
    pub text_color: Option<Color>,
}

/// The styles of a radio button, one for each state of interaction.
#[derive(Debug, Clone, Copy, PartialEq, Eq, Structural)]
pub struct StyleSheet {
    /// The style of a button that the cursor is not over.
    pub active: Style,
    /// The style of a button that the cursor is over.
    pub hovered: Style,
}

impl StyleSheet {
    /// The style for the given state of interaction.
    pub open spec fn style_spec(self, is_mouse_over: bool) -> Style {
        if is_mouse_over {
            self.hovered
        } else {
            self.active
        }
    }

    /// The style for the given state of interaction.
    pub fn style(&self, is_mouse_over: bool) -> (style: Style)
        ensures
            style == self.style_spec(is_mouse_over),
    {
        if is_mouse_over {
            self.hovered
        } else {
            self.active
        }
    }

    /// The style sheet of a button that the application did not style: light
    /// grey with a grey border and a dark dot, a little darker under the
    /// cursor.
    pub open spec fn default_spec() -> StyleSheet {
        let active = Style {
            background: Background::Color(Color { r: 242, g: 242, b: 242, a: 255 }),
            dot_color: Color { r: 77, g: 77, b: 77, a: 255 },
            border_width: 1,
            border_color: Color { r: 153, g: 153, b: 153, a: 255 },
            text_color: None,
        };
        StyleSheet {
            active,
            hovered: Style { background: Background::Color(Color { r: 230, g: 230, b: 230, a: 255 }), ..active },
        }
    }

    /// The style sheet of a button that the application did not style.
    pub fn default() -> (sheet: StyleSheet)
        ensures
            sheet == StyleSheet::default_spec(),
    {
        let active = Style {
            background: Background::Color(Color { r: 242, g: 242, b: 242, a: 255 }),
            dot_color: Color { r: 77, g: 77, b: 77, a: 255 },
            border_width: 1,
            border_color: Color { r: 153, g: 153, b: 153, a: 255 },
            text_color: None,
        };
        StyleSheet {
            active,
            hovered: Style { background: Background::Color(Color { r: 230, g: 230, b: 230, a: 255 }), ..active },
        }
    }
}

} // verus!
