//! Fonts.
use vstd::prelude::*;

verus! {

/// A font.
#[derive(Debug, Clone, Copy)]
pub enum Font {
    /// The font that the backend picks by default.
    Default,
    /// A font that the application ships.
    External {
        /// The name of the font.
        name: &'static str,
        /// The bytes of the font file.
        bytes: &'static [u8],
    },
}

impl Font {
    /// The default font.
    pub fn default() -> (font: Font)
        ensures
            font == Font::Default,
    {
        Font::Default
    }
}

} // verus!
