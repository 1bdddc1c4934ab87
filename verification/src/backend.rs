//! What a graphics backend offers to a renderer.
use vstd::prelude::*;

use crate::font::Font;
use crate::image;
use crate::point::Point;
use crate::size::Size;
use crate::svg;
use crate::text::Hit;

verus! {

/// The graphics backend of a renderer.
pub trait Backend {
    /// A rendering job that only this backend can execute.
    type CustomRenderPrimitive;

    /// Trims the cache of text measurements. Called at the end of a frame,
    /// when no measurement of the frame is needed any more.
    fn trim_measurements(&mut self) {
    }
}

/// A graphics backend that can measure text.
pub trait Text {
    /// The icon font of the backend.
    const ICON_FONT: Font;

    /// The character that is a check mark in the icon font.
    const CHECKMARK_ICON: char;

    /// The character that is an arrow pointing down in the icon font.
    const ARROW_DOWN_ICON: char;

    /// The size of text that asks for none, as a function of the backend.
    spec fn default_size_spec(&self) -> u16;

    /// The width and height of `contents` laid out with the given size and
    /// font inside `bounds`, as a function of the backend and the arguments.
    spec fn measure_spec(&self, contents: Seq<char>, size: u16, font: Font, bounds: Size) -> (u32, u32);

    /// The size of text that asks for none.
    fn default_size(&self) -> (size: u16)
        ensures
            size == self.default_size_spec(),
    ;

    /// Measures `contents` with the given size and font: the width and height
    /// of the paragraph that fits in `bounds`.
    fn measure(&self, contents: &str, size: u16, font: Font, bounds: Size) -> (measured: (u32, u32))
        ensures
            measured == self.measure_spec(contents@, size, font, bounds),
    ;

    /// Tests whether `point` lies within the text laid out with the given
    /// parameters, and tells the nearest character. With `nearest_only` the
    /// character whose center is nearest is told, whether or not the point
    /// lies inside a glyph.
    fn hit_test(
        &self,
        contents: &str,
        size: u16,
        font: Font,
        bounds: Size,
        point: Point,
        nearest_only: bool,
    ) -> Option<Hit>;
}

/// A graphics backend that can draw raster images.
pub trait Image {
    /// The width and height of the image behind `handle`, in pixels.
    fn dimensions(&self, handle: &image::Handle) -> (u32, u32);
}

/// A graphics backend that can draw vector images.
pub trait Svg {
    /// The width and height of the viewport of the image behind `handle`.
    fn viewport_dimensions(&self, handle: &svg::Handle) -> (u32, u32);
}

} // verus!
