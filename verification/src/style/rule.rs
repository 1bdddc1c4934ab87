//! The look of a rule.
use vstd::prelude::*;

use crate::color::Color;
use crate::units::clamp_u32;

verus! {

/// How much of the space along a rule the line takes.
#[derive(Debug, Clone, Copy, PartialEq, Eq, Structural)]
pub enum FillMode {
    /// The whole space.
    Full,
    /// The given percentage of the space, centered.
    Percent(u8),
    /// The space without the given padding at either end.
    Padded(u16),
    /// The space without the given paddings at the start and at the end.
    AsymmetricPadding(u16, u16),
}

impl FillMode {
    /// Where the line starts within `space`, and how long it is.
    pub open spec fn fill_spec(self, space: u32) -> (u32, u32) {
        match self {
            FillMode::Full => (0, space),
            FillMode::Percent(percent) => if percent >= 100 {
                (0, space)
            } else {
                let length = (space * percent / 100) as u32;
                (((space - length) / 2) as u32, length)
            },
            FillMode::Padded(padding) => (padding as u32, clamp_u32(space - 2 * padding)),
            FillMode::AsymmetricPadding(first, second) => (first as u32, clamp_u32(space - first - second)),
        }
    }

    /// Where the line starts within `space`, and how long it is.
    pub fn fill(&self, space: u32) -> (line: (u32, u32))
        ensures
            line == self.fill_spec(space),
    {
        match *self {
            FillMode::Full => (0, space),
            FillMode::Percent(percent) => {
                if percent >= 100 {
                    (0, space)
                } else {
                    assert(space * percent <= space * 100 && space * 100 <= u64::MAX) by (nonlinear_arith)
                        requires
                            percent < 100,
                            space <= u32::MAX,
                    ;
                    let length: u64 = space as u64 * percent as u64 / 100;
                    (((space as u64 - length) / 2) as u32, length as u32)
                }
            },
            FillMode::Padded(padding) => {
                let taken: u64 = 2 * padding as u64;
                if space as u64 >= taken {
                    (padding as u32, (space as u64 - taken) as u32)
                } else {
                    (padding as u32, 0)
                }
            },
            FillMode::AsymmetricPadding(first, second) => {
                let taken: u64 = first as u64 + second as u64;
                if space as u64 >= taken {
                    (first as u32, (space as u64 - taken) as u32)
                } else {
                    (first as u32, 0)
                }
            },
        }
    }
}

/// The appearance of a rule.
#[derive(Debug, Clone, Copy, PartialEq, Eq, Structural)]
pub struct Style {
    /// The color of the line.
    pub color: Color,
    /// The width of the line.
    pub width: u16,
    /// The radius of the corners of the line.
    pub radius: u32,
    /// How much of the space the line takes.
    pub fill_mode: FillMode,
}

impl Style {
    /// The style of a rule that the application did not style: a thin grey
    /// line over the whole space.
    pub open spec fn default_spec() -> Style {
        Style { color: Color { r: 153, g: 153, b: 153, a: 153 }, width: 1, radius: 0, fill_mode: FillMode::Full }
    }

    /// The style of a rule that the application did not style.
    pub fn default() -> (style: Style)
        ensures
            style == Style::default_spec(),
    {
        Style { color: Color { r: 153, g: 153, b: 153, a: 153 }, width: 1, radius: 0, fill_mode: FillMode::Full }
    }
}

} // verus!
