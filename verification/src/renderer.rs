//! What a renderer offers to the widgets, and the styling they inherit.
use vstd::prelude::*;

use crate::backend;
use crate::color::Color;
use crate::font::Font;
use crate::rectangle::Rectangle;
use crate::size::Size;

pub mod null;

verus! {

/// Whether two renderers measure text alike: the same default size, and the
/// same measure of every text.
pub open spec fn same_text<R: backend::Text>(a: &R, b: &R) -> bool {
    &&& a.default_size_spec() == b.default_size_spec()
    &&& forall|contents: Seq<char>, size: u16, font: Font, bounds: Size| #[trigger]
        a.measure_spec(contents, size, font, bounds) == b.measure_spec(contents, size, font, bounds)
}

/// Whether a draw pass took the renderer from `before` to `after` and began
/// the layers `overlays` on the way, in order: every layer that it began it
/// also ended, and it left the measure of text alone.
pub open spec fn drawn<R: Renderer>(before: &R, after: &R, overlays: Seq<Rectangle>) -> bool {
    &&& after.layers() == before.layers() + overlays
    &&& after.depth() == before.depth()
    &&& same_text(before, after)
}

/// A component that can take the state of a user interface and produce an
/// output for its users. It measures text for the widgets. Out-of-flow
/// content is drawn between `begin_layer` and `end_layer`; the brackets nest
/// as a stack, and none of them changes how text is measured.
pub trait Renderer: backend::Text + Sized {
    /// The clip regions of all the layers begun so far, in the order in which
    /// they were begun.
    spec fn layers(&self) -> Seq<Rectangle>;

    /// The number of layers that were begun and not yet ended.
    spec fn depth(&self) -> nat;

    /// Called when a layout pass is over, for instance to trim caches of
    /// measurements. It touches no layer.
    fn after_layout(&mut self)
        ensures
            final(self).layers() == old(self).layers(),
            final(self).depth() == old(self).depth(),
            same_text(old(self), final(self)),
    {
    }

    /// Opens a layer: what is drawn until the matching `end_layer` is
    /// confined to `bounds` and painted above what lies outside the bracket.
    fn begin_layer(&mut self, bounds: Rectangle)
        ensures
            final(self).layers() == old(self).layers().push(bounds),
            final(self).depth() == old(self).depth() + 1,
            same_text(old(self), final(self)),
    ;

    /// Closes the layer that was opened last.
    fn end_layer(&mut self)
        requires
            old(self).depth() > 0,
        ensures
            final(self).layers() == old(self).layers(),
            final(self).depth() == old(self).depth() - 1,
            same_text(old(self), final(self)),
    ;
}

/// Some default text styling attributes.
#[derive(Debug, Clone, Copy, PartialEq, Eq, Structural)]
pub struct Text {
    /// The default color of text.
    pub color: Color,
}

impl Text {
    /// Black text.
    pub fn default() -> (text: Text)
        ensures
            text.color == Color::black_spec(),
    {
        Text { color: Color::black() }
    }
}

/// Some default styling attributes, handed down from a widget to its
/// content.
#[derive(Debug, Clone, Copy, PartialEq, Eq, Structural)]
pub struct Defaults {
    /// Text styling.
    pub text: Text,
}

impl Defaults {
    /// The defaults at the root: black text.
    pub fn default() -> (defaults: Defaults)
        ensures
            defaults.text.color == Color::black_spec(),
    {
        Defaults { text: Text::default() }
    }
}

} // verus!
