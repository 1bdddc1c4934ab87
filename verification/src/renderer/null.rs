//! A renderer that draws nothing.
use vstd::prelude::*;

use crate::backend;
use crate::font::Font;
use crate::point::Point;
use crate::rectangle::Rectangle;
use crate::renderer::Renderer;
use crate::size::Size;
use crate::text::Hit;

verus! {

/// A renderer that draws nothing: it measures every text alike and keeps a
/// record of the layers that were begun. Useful where a user interface is
/// laid out and driven without a screen.
pub struct Null {
    /// The size that every text without a size of its own has.
    pub text_size: u16,
    /// The width and height that every text measures.
    pub measured: (u32, u32),
    /// The clip regions of the layers begun so far, first to last.
    pub begun: Vec<Rectangle>,
    /// The clip regions of the layers that are open, outermost first.
    pub open: Vec<Rectangle>,
}

impl Null {
    /// A renderer for which text has size 20 by default and every text is 20
    /// units high and of no width.
    pub fn new() -> (renderer: Null)
        ensures
            renderer.text_size == 20,
            renderer.measured == (0u32, 20u32),
            renderer.layers() == Seq::<Rectangle>::empty(),
            renderer.depth() == 0,
    {
        Null { text_size: 20, measured: (0, 20), begun: Vec::new(), open: Vec::new() }
    }

    /// A renderer for which text has size `text_size` by default and every
    /// text measures `width` by `height`.
    pub fn with_text(text_size: u16, width: u32, height: u32) -> (renderer: Null)
        ensures
            renderer.text_size == text_size,
            renderer.measured == (width, height),
            renderer.layers() == Seq::<Rectangle>::empty(),
            renderer.depth() == 0,
    {
        Null { text_size, measured: (width, height), begun: Vec::new(), open: Vec::new() }
    }

    /// The clip regions of the layers begun so far, first to last.
    pub fn begun(&self) -> (layers: &Vec<Rectangle>)
        ensures
            layers@ == self.layers(),
    {
        &self.begun
    }

    /// The number of layers that are open.
    pub fn open(&self) -> (open: usize)
        ensures
            open == self.depth(),
    {
        self.open.len()
    }
}

impl Renderer for Null {
    open spec fn layers(&self) -> Seq<Rectangle> {
        self.begun@
    }

    open spec fn depth(&self) -> nat {
        self.open@.len()
    }

    fn begin_layer(&mut self, bounds: Rectangle) {
        self.begun.push(bounds);
        self.open.push(bounds);
    }

    fn end_layer(&mut self) {
        let _ = self.open.pop();
    }
}

impl backend::Text for Null {
    const ICON_FONT: Font = Font::Default;

    const CHECKMARK_ICON: char = '0';

    const ARROW_DOWN_ICON: char = '0';

    open spec fn default_size_spec(&self) -> u16 {
        self.text_size
    }

    open spec fn measure_spec(&self, contents: Seq<char>, size: u16, font: Font, bounds: Size) -> (u32, u32) {
        self.measured
    }

    fn default_size(&self) -> (size: u16) {
        self.text_size
    }

    fn measure(&self, contents: &str, size: u16, font: Font, bounds: Size) -> (measured: (u32, u32)) {
        self.measured
    }

    /// This renderer lays out no glyphs, so no point hits or is near a
    /// character: the test finds nothing, whatever the text and the point.
    fn hit_test(
        &self,
        contents: &str,
        size: u16,
        font: Font,
        bounds: Size,
        point: Point,
        nearest_only: bool,
    ) -> (hit: Option<Hit>)
        ensures
            hit is None,
    {
        None
    }
}

} // verus!
