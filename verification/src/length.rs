//! How a widget asks to be sized along one axis.
use vstd::prelude::*;

verus! {

/// The sizing policy of a widget along one axis, relative to the space that
/// its parent offers.
#[derive(Debug, Clone, Copy, PartialEq, Eq, Structural, Hash)]
pub enum Length {
    /// Take all the space that is left, with weight one.
    Fill,
    /// Take the space that is left in proportion to the given weight.
    FillPortion(u16),
    /// Take as little space as the content needs.
    Shrink,
    /// Take exactly the given number of units.
    Units(u16),
}

impl Length {
    /// The weight with which this policy shares the space that is left; zero
    /// for the policies that do not fill.
    pub open spec fn fill_factor_spec(self) -> int {
        match self {
            Length::Fill => 1,
            Length::FillPortion(factor) => factor as int,
            Length::Shrink => 0,
            Length::Units(_) => 0,
        }
    }

    /// The weight with which this policy shares the space that is left.
    pub fn fill_factor(&self) -> (factor: u16)
        ensures
            factor == self.fill_factor_spec(),
    {
        match self {
            Length::Fill => 1,
            Length::FillPortion(factor) => *factor,
            Length::Shrink => 0,
            Length::Units(_) => 0,
        }
    }
}

} // verus!
