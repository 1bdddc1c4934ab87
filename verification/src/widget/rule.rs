//! Display a horizontal or vertical rule for dividing content.
use vstd::prelude::*;

use crate::backend;
use crate::background::Background;
use crate::color::Color;
use crate::hasher::{absorb, bytes_length, lemma_absorb_twice, Hasher};
use crate::layout::Layout;
use crate::layout::item::Item;
use crate::layout::limits::Limits;
use crate::layout::node::Node;
use crate::length::Length;
use crate::point::Point;
use crate::primitive::{Primitive, PrimitiveBackend, Scene};
use crate::rectangle::Rectangle;
use crate::renderer::{drawn, Defaults, Renderer};
use crate::size::Size;
use crate::style::rule::Style;
use crate::units::{clamp_i32, half, to_i32};

verus! {

/// A horizontal or vertical rule for dividing content.
#[derive(Debug, Clone, Copy)]
pub struct Rule {
    /// The width policy.
    pub width: Length,
    /// The height policy.
    pub height: Length,
    /// The look of the line.
    pub style: Style,
    /// Whether the line runs from left to right.
    pub is_horizontal: bool,
}

impl Rule {
    /// What of the rule decides its layout: its sizing policies.
    pub open spec fn item(&self) -> Item {
        Item::Blank { width: self.width, height: self.height }
    }

    /// Creates a horizontal rule that divides content by the given vertical
    /// spacing: it fills the width and is `spacing` high.
    pub fn horizontal(spacing: u16) -> (rule: Rule)
        ensures
            rule == (Rule {
                width: Length::Fill,
                height: Length::Units(spacing),
                style: Style::default_spec(),
                is_horizontal: true,
            }),
    {
        Rule { width: Length::Fill, height: Length::Units(spacing), style: Style::default(), is_horizontal: true }
    }

    /// Creates a vertical rule that divides content by the given horizontal
    /// spacing: it fills the height and is `spacing` wide.
    pub fn vertical(spacing: u16) -> (rule: Rule)
        ensures
            rule == (Rule {
                width: Length::Units(spacing),
                height: Length::Fill,
                style: Style::default_spec(),
                is_horizontal: false,
            }),
    {
        Rule { width: Length::Units(spacing), height: Length::Fill, style: Style::default(), is_horizontal: false }
    }

    /// Sets the style of the rule.
    pub fn style(self, style: Style) -> (rule: Rule)
        ensures
            rule == (Rule { style, ..self }),
    {
        let mut rule = self;
        rule.style = style;
        rule
    }

    /// Lays the rule out: it has no content, and takes the smallest size that
    /// its sizing policy allows within the limits.
    pub fn layout<R: backend::Text>(&self, renderer: &R, limits: &Limits) -> (node: Node)
        ensures
            node@ == self.item().layout(renderer, *limits),
    {
        let limits = limits.width(self.width).height(self.height);
        Node::new(limits.resolve(Size::zero()))
    }

    /// The bounds of the line of the rule within `bounds`: as thick as the
    /// style says, centered across the rule, and as long as the fill mode of
    /// the style leaves it.
    pub open spec fn line(&self, bounds: Rectangle) -> Rectangle {
        if self.is_horizontal {
            let along = self.style.fill_mode.fill_spec(bounds.width);
            Rectangle {
                x: clamp_i32(bounds.x + along.0),
                y: clamp_i32(bounds.y + (bounds.height - self.style.width) / 2),
                width: along.1,
                height: self.style.width as u32,
            }
        } else {
            let along = self.style.fill_mode.fill_spec(bounds.height);
            Rectangle {
                x: clamp_i32(bounds.x + (bounds.width - self.style.width) / 2),
                y: clamp_i32(bounds.y + along.0),
                width: self.style.width as u32,
                height: along.1,
            }
        }
    }

    /// The primitive of the rule when it is laid out as `layout`: one quad,
    /// the line, in the color of the style and without a border.
    pub open spec fn scene(&self, layout: Layout<'_>) -> Scene {
        Scene::Quad {
            bounds: self.line(layout.bounds_spec()),
            background: Background::Color(self.style.color),
            border_radius: self.style.radius,
            border_width: 0,
            border_color: Color::transparent_spec(),
        }
    }

    /// Draws the rule within the bounds that the layout gave it. No layer is
    /// begun.
    pub fn draw<R: Renderer, B: PrimitiveBackend>(
        &self,
        renderer: &mut R,
        defaults: &Defaults,
        layout: Layout<'_>,
        cursor_position: Point,
        viewport: &Rectangle,
    ) -> (primitive: Primitive<B>)
        ensures
            primitive@ == self.scene(layout),
            drawn(old(renderer), final(renderer), Seq::empty()),
    {
        let bounds = layout.bounds();
        let thickness = self.style.width as i64;
        let line = if self.is_horizontal {
            let (offset, length) = self.style.fill_mode.fill(bounds.width);
            Rectangle {
                x: to_i32(bounds.x as i64 + offset as i64),
                y: to_i32(bounds.y as i64 + half(bounds.height as i64 - thickness)),
                width: length,
                height: self.style.width as u32,
            }
        } else {
            let (offset, length) = self.style.fill_mode.fill(bounds.height);
            Rectangle {
                x: to_i32(bounds.x as i64 + half(bounds.width as i64 - thickness)),
                y: to_i32(bounds.y as i64 + offset as i64),
                width: self.style.width as u32,
                height: length,
            }
        };
        assert(renderer.layers() + Seq::<Rectangle>::empty() =~= renderer.layers());
        Primitive::Quad {
            bounds: line,
            background: Background::Color(self.style.color),
            border_radius: self.style.radius,
            border_width: 0,
            border_color: Color::transparent(),
        }
    }

    /// The bytes that the rule contributes to the structural hash: its kind
    /// and its sizing policies.
    pub open spec fn fingerprint(&self) -> Seq<u8> {
        seq![2u8] + bytes_length(self.width) + bytes_length(self.height)
    }

    /// Writes what decides the layout of the rule to the structural hash.
    pub fn hash_layout(&self, state: &mut Hasher)
        ensures
            final(state).state == absorb(old(state).state, self.fingerprint()),
    {
        let ghost start = state.state;
        state.write_u8(2);
        state.write_length(self.width);
        proof {
            lemma_absorb_twice(start, seq![2u8], bytes_length(self.width));
        }
        state.write_length(self.height);
        proof {
            lemma_absorb_twice(start, seq![2u8] + bytes_length(self.width), bytes_length(self.height));
        }
    }
}

} // verus!
