//! Write some text for your users to read.
use vstd::prelude::*;

use crate::alignment;
use crate::backend;
use crate::color::Color;
use crate::font::Font;
use crate::hasher::{absorb, bytes_length, bytes_size, bytes_str, lemma_absorb_twice, Hasher};
use crate::layout::Layout;
use crate::layout::item::Item;
use crate::layout::limits::Limits;
use crate::layout::node::Node;
use crate::length::Length;
use crate::point::Point;
use crate::primitive::{Primitive, PrimitiveBackend, Scene};
use crate::rectangle::Rectangle;
use crate::renderer::{drawn, Defaults, Renderer};
use crate::size::Size;
use crate::units::{clamp_i32, to_i32};

verus! {

/// The point of `bounds` that text with the given alignment is anchored to:
/// the left edge, the center or the right edge, and the top edge, the middle
/// or the bottom edge.
pub open spec fn anchor(
    bounds: Rectangle,
    horizontal_alignment: alignment::Horizontal,
    vertical_alignment: alignment::Vertical,
) -> Point {
    Point {
        x: match horizontal_alignment {
            alignment::Horizontal::Left => bounds.x,
            alignment::Horizontal::Center => clamp_i32(bounds.x + bounds.width / 2),
            alignment::Horizontal::Right => clamp_i32(bounds.x + bounds.width),
        },
        y: match vertical_alignment {
            alignment::Vertical::Top => bounds.y,
            alignment::Vertical::Center => clamp_i32(bounds.y + bounds.height / 2),
            alignment::Vertical::Bottom => clamp_i32(bounds.y + bounds.height),
        },
    }
}

/// The primitive of a paragraph of text within `bounds`: the text with all
/// its attributes, anchored according to its alignment, in its own color or
/// else in the inherited one.
pub open spec fn text_scene(
    defaults: Defaults,
    bounds: Rectangle,
    content: Seq<char>,
    size: u16,
    font: Font,
    color: Option<Color>,
    horizontal_alignment: alignment::Horizontal,
    vertical_alignment: alignment::Vertical,
) -> Scene {
    let at = anchor(bounds, horizontal_alignment, vertical_alignment);
    Scene::Text {
        content,
        bounds: Rectangle { x: at.x, y: at.y, width: bounds.width, height: bounds.height },
        color: match color {
            Some(color) => color,
            None => defaults.text.color,
        },
        size,
        font,
        horizontal_alignment,
        vertical_alignment,
    }
}

/// Makes the primitive of a paragraph of text within `bounds`.
pub fn fill_text<B: PrimitiveBackend>(
    defaults: &Defaults,
    bounds: Rectangle,
    content: &str,
    size: u16,
    font: Font,
    color: Option<Color>,
    horizontal_alignment: alignment::Horizontal,
    vertical_alignment: alignment::Vertical,
) -> (primitive: Primitive<B>)
    ensures
        primitive@ == text_scene(
            *defaults,
            bounds,
            content@,
            size,
            font,
            color,
            horizontal_alignment,
            vertical_alignment,
        ),
{
    let x = match horizontal_alignment {
        alignment::Horizontal::Left => bounds.x,
        alignment::Horizontal::Center => bounds.center_x(),
        alignment::Horizontal::Right => to_i32(bounds.x as i64 + bounds.width as i64),
    };
    let y = match vertical_alignment {
        alignment::Vertical::Top => bounds.y,
        alignment::Vertical::Center => bounds.center_y(),
        alignment::Vertical::Bottom => to_i32(bounds.y as i64 + bounds.height as i64),
    };
    Primitive::Text {
        content: content.to_owned(),
        bounds: Rectangle { x, y, width: bounds.width, height: bounds.height },
        color: match color {
            Some(color) => color,
            None => defaults.text.color,
        },
        size,
        font,
        horizontal_alignment,
        vertical_alignment,
    }
}

/// A paragraph of text.
#[derive(Debug)]
pub struct Text {
    /// The characters of the paragraph.
    pub content: String,
    /// The size of the text, where it is not the default of the backend.
    pub size: Option<u16>,
    /// The color of the text, where it is not the inherited one.
    pub color: Option<Color>,
    /// The font of the text.
    pub font: Font,
    /// The width policy.
    pub width: Length,
    /// The height policy.
    pub height: Length,
    /// Where the text stands horizontally within its bounds.
    pub horizontal_alignment: alignment::Horizontal,
    /// Where the text stands vertically within its bounds.
    pub vertical_alignment: alignment::Vertical,
}

impl Text {
    /// What of the text decides its layout: its characters, size, font and
    /// sizing policies. Its color and alignment do not.
    pub open spec fn item(&self) -> Item {
        Item::Text { content: self.content@, size: self.size, font: self.font, width: self.width, height: self.height }
    }

    /// Create a new fragment of text with the given contents: of the default
    /// size, color and font, shrinking to its content, aligned to the top
    /// left.
    pub fn new(label: &str) -> (text: Text)
        ensures
            text.content@ == label@,
            text.size is None,
            text.color is None,
            text.font == Font::Default,
            text.width == Length::Shrink,
            text.height == Length::Shrink,
            text.horizontal_alignment == alignment::Horizontal::Left,
            text.vertical_alignment == alignment::Vertical::Top,
    {
        Text {
            content: label.to_owned(),
            size: None,
            color: None,
            font: Font::Default,
            width: Length::Shrink,
            height: Length::Shrink,
            horizontal_alignment: alignment::Horizontal::Left,
            vertical_alignment: alignment::Vertical::Top,
        }
    }

    /// Sets the size of the text.
    pub fn size(self, size: u16) -> (text: Text)
        ensures
            text == (Text { size: Some(size), ..self }),
    {
        let mut text = self;
        text.size = Some(size);
        text
    }

    /// Sets the color of the text.
    pub fn color(self, color: Color) -> (text: Text)
        ensures
            text == (Text { color: Some(color), ..self }),
    {
        let mut text = self;
        text.color = Some(color);
        text
    }

    /// Sets the font of the text.
    pub fn font(self, font: Font) -> (text: Text)
        ensures
            text == (Text { font, ..self }),
    {
        let mut text = self;
        text.font = font;
        text
    }

    /// Sets the width of the text boundaries.
    pub fn width(self, width: Length) -> (text: Text)
        ensures
            text == (Text { width, ..self }),
    {
        let mut text = self;
        text.width = width;
        text
    }

    /// Sets the height of the text boundaries.
    pub fn height(self, height: Length) -> (text: Text)
        ensures
            text == (Text { height, ..self }),
    {
        let mut text = self;
        text.height = height;
        text
    }

    /// Sets where the text stands horizontally within its bounds.
    pub fn horizontal_alignment(self, alignment: alignment::Horizontal) -> (text: Text)
        ensures
            text == (Text { horizontal_alignment: alignment, ..self }),
    {
        let mut text = self;
        text.horizontal_alignment = alignment;
        text
    }

    /// Sets where the text stands vertically within its bounds.
    pub fn vertical_alignment(self, alignment: alignment::Vertical) -> (text: Text)
        ensures
            text == (Text { vertical_alignment: alignment, ..self }),
    {
        let mut text = self;
        text.vertical_alignment = alignment;
        text
    }

    /// Lays the text out: it is measured by the renderer within the limits
    /// that its own sizing policy narrowed, and takes the size that the
    /// measure resolves to.
    pub fn layout<R: backend::Text>(&self, renderer: &R, limits: &Limits) -> (node: Node)
        ensures
            node@ == self.item().layout(renderer, *limits),
    {
        let limits = limits.width(self.width).height(self.height);
        let size = match self.size {
            Some(size) => size,
            None => renderer.default_size(),
        };
        let bounds = limits.max();
        let (width, height) = renderer.measure(self.content.as_str(), size, self.font, bounds);
        Node::new(limits.resolve(Size::new(width, height)))
    }

    /// The primitive of the text when it is laid out as `layout`: its content
    /// within the bounds of the layout, of its own size or else of
    /// `default_size`, in its own color or else in the inherited one.
    pub open spec fn scene(&self, default_size: u16, defaults: Defaults, layout: Layout<'_>) -> Scene {
        self.scene_within(default_size, defaults, layout.bounds_spec())
    }

    /// The primitive of the text within `bounds`.
    pub open spec fn scene_within(&self, default_size: u16, defaults: Defaults, bounds: Rectangle) -> Scene {
        text_scene(
            defaults,
            bounds,
            self.content@,
            match self.size {
                Some(size) => size,
                None => default_size,
            },
            self.font,
            self.color,
            self.horizontal_alignment,
            self.vertical_alignment,
        )
    }

    /// Draws the text within the bounds that the layout gave it. No layer is
    /// begun.
    pub fn draw<R: Renderer, B: PrimitiveBackend>(
        &self,
        renderer: &mut R,
        defaults: &Defaults,
        layout: Layout<'_>,
        cursor_position: Point,
        viewport: &Rectangle,
    ) -> (primitive: Primitive<B>)
        ensures
            primitive@ == self.scene(old(renderer).default_size_spec(), *defaults, layout),
            drawn(old(renderer), final(renderer), Seq::empty()),
    {
        let size = match self.size {
            Some(size) => size,
            None => renderer.default_size(),
        };
        assert(renderer.layers() + Seq::<Rectangle>::empty() =~= renderer.layers());
        fill_text(
            defaults,
            layout.bounds(),
            self.content.as_str(),
            size,
            self.font,
            self.color,
            self.horizontal_alignment,
            self.vertical_alignment,
        )
    }

    /// The bytes that the text contributes to the structural hash: its kind,
    /// its content, its size and its sizing policies. Color, font and
    /// alignment do not count.
    pub open spec fn fingerprint(&self) -> Seq<u8> {
        seq![1u8] + bytes_str(self.content@) + bytes_size(self.size) + bytes_length(self.width) + bytes_length(
            self.height,
        )
    }

    /// Writes what decides the layout of the text to the structural hash.
    pub fn hash_layout(&self, state: &mut Hasher)
        ensures
            final(state).state == absorb(old(state).state, self.fingerprint()),
    {
        let ghost start = state.state;
        state.write_u8(1);
        state.write_str(self.content.as_str());
        let ghost a = seq![1u8] + bytes_str(self.content@);
        proof {
            lemma_absorb_twice(start, seq![1u8], bytes_str(self.content@));
        }
        state.write_size(self.size);
        let ghost b = a + bytes_size(self.size);
        proof {
            lemma_absorb_twice(start, a, bytes_size(self.size));
        }
        state.write_length(self.width);
        let ghost c = b + bytes_length(self.width);
        proof {
            lemma_absorb_twice(start, b, bytes_length(self.width));
        }
        state.write_length(self.height);
        proof {
            lemma_absorb_twice(start, c, bytes_length(self.height));
        }
    }
}

impl Clone for Text {
    /// A copy of the text, equal to it in every field.
    fn clone(&self) -> (text: Text)
        ensures
            text == *self,
    {
        Text {
            content: self.content.clone(),
            size: self.size,
            color: self.color,
            font: self.font,
            width: self.width,
            height: self.height,
            horizontal_alignment: self.horizontal_alignment,
            vertical_alignment: self.vertical_alignment,
        }
    }
}

} // verus!
