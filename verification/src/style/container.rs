//! The look of a box around content.
use vstd::prelude::*;

use crate::background::Background;
use crate::color::Color;

verus! {

/// The appearance of a box around content.
#[derive(Debug, Clone, Copy, PartialEq, Eq, Structural)]
pub struct Style {
    /// The color of text inside the box, where it is not the inherited one.
    pub text_color: Option<Color>,
    /// The fill of the box, if it has one.
    pub background: Option<Background>,
    /// The radius of the corners of the box.
    pub border_radius: u32,
    /// The width of the border of the box.
    pub border_width: u32,
    /// The color of the border of the box.
    pub border_color: Color,
}

impl Style {
    /// The style of a box that the application did not style: nothing is
    /// drawn, and text keeps its color.
    pub open spec fn default_spec() -> Style {
        Style {
            text_color: None,
            background: None,
            border_radius: 0,
            border_width: 0,
            border_color: Color::transparent_spec(),
        }
    }

    /// The style of a box that the application did not style.
    pub fn default() -> (style: Style)
        ensures
            style == Style::default_spec(),
    {
        Style {
            text_color: None,
            background: None,
            border_radius: 0,
            border_width: 0,
            border_color: Color::transparent(),
        }
    }
}

} // verus!
