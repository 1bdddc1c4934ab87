//! Create choices using radio buttons.
use vstd::prelude::*;
use vstd::std_specs::cmp::PartialEqSpec;

use crate::alignment::Alignment;
use crate::alignment;
use crate::backend;
use crate::background::Background;
use crate::color::Color;
use crate::element::{items, Element};
use crate::event::{Event, Status};
use crate::font::Font;
use crate::hasher::{absorb, bytes_control, bytes_str, lemma_absorb_twice, Hasher};
use crate::layout::Layout;
use crate::layout::flex::Axis;
use crate::layout::item::Item;
use crate::layout::limits::Limits;
use crate::layout::node::Node;
use crate::length::Length;
use crate::padding::Padding;
use crate::point::Point;
use crate::primitive::{group, Primitive, PrimitiveBackend, Scene};
use crate::rectangle::Rectangle;
use crate::renderer::{drawn, Defaults, Renderer};
use crate::style::radio::StyleSheet;
use crate::units::{clamp_i32, clamp_u32, sub_u32, to_i32};
use crate::widget::row::Row;
use crate::widget::text::Text;
use crate::widget::text::{fill_text, text_scene};

verus! {

/// A circular button representing a choice.
pub struct Radio<Message> {
    /// Whether this is the choice that is selected.
    pub is_selected: bool,
    /// The message that a click on the button produces.
    pub on_click: Message,
    /// The label of the button.
    pub label: String,
    /// The width policy.
    pub width: Length,
    /// The diameter of the circle.
    pub size: u16,
    /// The space between the circle and the label.
    pub spacing: u16,
    /// The size of the label, where it is not the default of the backend.
    pub text_size: Option<u16>,
    /// The color of the label, where it is not the inherited one.
    pub text_color: Option<Color>,
    /// The font of the label.
    pub font: Font,
    /// The looks of the button.
    pub style: StyleSheet,
}

impl<Message> Radio<Message> {
    /// The box of the circle, as far as layout goes.
    pub open spec fn circle_item(&self) -> Item {
        Item::Flex {
            axis: Axis::Horizontal,
            spacing: 0,
            padding: Padding { top: 0, right: 0, bottom: 0, left: 0 },
            width: Length::Units(self.size),
            height: Length::Units(self.size),
            max_width: u32::MAX,
            max_height: u32::MAX,
            align_items: Alignment::Start,
            children: Seq::empty(),
        }
    }

    /// The label, as far as layout goes: text in the default font that takes
    /// the width policy of the button.
    pub open spec fn label_item(&self) -> Item {
        Item::Text {
            content: self.label@,
            size: self.text_size,
            font: Font::Default,
            width: self.width,
            height: Length::Shrink,
        }
    }

    /// What of the button decides its layout: a row of the circle and the
    /// label, centered vertically, the spacing between them.
    pub open spec fn item(&self) -> Item {
        Item::Flex {
            axis: Axis::Horizontal,
            spacing: self.spacing,
            padding: Padding { top: 0, right: 0, bottom: 0, left: 0 },
            width: self.width,
            height: Length::Shrink,
            max_width: u32::MAX,
            max_height: u32::MAX,
            align_items: Alignment::Center,
            children: seq![self.circle_item(), self.label_item()],
        }
    }

    /// Creates a new radio button.
    ///
    /// It expects the value that the button stands for, the label of the
    /// button, the value that is selected now, and a function that is called
    /// with the value of the button and gives the message that a click
    /// produces.
    pub fn new<F, V>(value: V, label: &str, selected: Option<V>, f: F) -> (radio: Radio<Message>)
        where
            V: Eq + Copy,
            F: Fn(V) -> Message,
        requires
            call_requires(f, (value,)),
        ensures
            V::obeys_eq_spec() ==> radio.is_selected == (selected matches Some(s) && value.eq_spec(&s)),
            call_ensures(f, (value,), radio.on_click),
            radio.label@ == label@,
            radio.width == Length::Shrink,
            radio.size == 28,
            radio.spacing == 15,
            radio.text_size is None,
            radio.text_color is None,
            radio.font == Font::Default,
            radio.style == StyleSheet::default_spec(),
    {
        let is_selected = match selected {
            Some(s) => value == s,
            None => false,
        };
        Radio {
            is_selected,
            on_click: f(value),
            label: label.to_owned(),
            width: Length::Shrink,
            size: 28,
            spacing: 15,
            text_size: None,
            text_color: None,
            font: Font::Default,
            style: StyleSheet::default(),
        }
    }

    /// Lays the button out: a row of the circle, a square of the size of the
    /// button, and the label, centered vertically, the spacing between them.
    pub fn layout<R: backend::Text>(&self, renderer: &R, limits: &Limits) -> (node: Node)
        ensures
            node@ == self.item().layout(renderer, *limits),
        decreases self.item(), 2nat, 0nat,
    {
        let circle: Row<Message> = Row::new().width(Length::Units(self.size)).height(Length::Units(self.size));
        let mut label = Text::new(self.label.as_str()).width(self.width);
        if let Some(size) = self.text_size {
            label = label.size(size);
        }
        let row: Row<Message> = Row::new().width(self.width).spacing(self.spacing).align_items(Alignment::Center).push(
            Element::Row(circle),
        ).push(Element::Text(label));
        proof {
            assert(items(circle.children@) =~= Seq::<Item>::empty());
            assert(row.children@[0].item() == self.circle_item());
            assert(row.children@[1].item() == self.label_item());
            assert(items(row.children@) =~= seq![self.circle_item(), self.label_item()]);
            assert(row.item() == self.item());
        }
        row.layout(renderer, limits)
    }

    /// Whether `event` with the cursor at `cursor_position` is a click on the
    /// button laid out as `layout`: a press of the left mouse button or of a
    /// finger, while the bounds of the button contain the cursor.
    pub open spec fn is_clicked(&self, event: Event, layout: Layout<'_>, cursor_position: Point) -> bool {
        event.is_press_spec() && layout.bounds_spec().contains_spec(cursor_position)
    }

    /// Handles an event. A click on the button appends one message, a clone
    /// of the one that the button was made with, and captures the event; any
    /// other event is ignored and appends nothing.
    pub fn on_event(
        &self,
        event: Event,
        layout: Layout<'_>,
        cursor_position: Point,
        messages: &mut Vec<Message>,
    ) -> (status: Status) where Message: Clone
        ensures
            status == if self.is_clicked(event, layout, cursor_position) {
                Status::Captured
            } else {
                Status::Ignored
            },
            self.is_clicked(event, layout, cursor_position) ==> final(messages)@.len() == old(messages)@.len() + 1
                && final(messages)@.drop_last() == old(messages)@ && cloned(self.on_click, final(messages)@.last()),
            !self.is_clicked(event, layout, cursor_position) ==> final(messages)@ == old(messages)@,
    {
        if event.is_press() && layout.bounds().contains(cursor_position) {
            messages.push(self.on_click.clone());
            assert(messages@.drop_last() =~= old(messages)@);
            Status::Captured
        } else {
            Status::Ignored
        }
    }

    /// The primitive of the circle within `circle`, for the given state of
    /// interaction: a quad as round as it is wide, with the fill and border
    /// of the style.
    pub open spec fn ring(&self, circle: Rectangle, is_mouse_over: bool) -> Scene {
        let style = self.style.style_spec(is_mouse_over);
        Scene::Quad {
            bounds: circle,
            background: style.background,
            border_radius: circle.width / 2,
            border_width: style.border_width,
            border_color: style.border_color,
        }
    }

    /// The primitive of the dot of a selected button within `circle`: a quad
    /// half as wide as the circle, in its middle, in the dot color of the
    /// style.
    pub open spec fn dot(&self, circle: Rectangle, is_mouse_over: bool) -> Scene {
        let style = self.style.style_spec(is_mouse_over);
        let dot_size = circle.width / 2;
        Scene::Quad {
            bounds: Rectangle {
                x: clamp_i32(circle.x + dot_size / 2),
                y: clamp_i32(circle.y + dot_size / 2),
                width: clamp_u32(circle.width - dot_size),
                height: clamp_u32(circle.height - dot_size),
            },
            background: Background::Color(style.dot_color),
            border_radius: dot_size / 2,
            border_width: 0,
            border_color: Color::transparent_spec(),
        }
    }

    /// The primitive of the button when it is laid out as `layout`, a row of
    /// the circle and the label: the circle, the dot if the button is
    /// selected, and the label, in this order. The cursor over the bounds of
    /// the button picks the hovered style.
    pub open spec fn scene(
        &self,
        default_size: u16,
        defaults: Defaults,
        layout: Layout<'_>,
        cursor_position: Point,
    ) -> Scene {
        let is_mouse_over = layout.bounds_spec().contains_spec(cursor_position);
        let circle = layout.child_spec(0).bounds_spec();
        let label = text_scene(
            defaults,
            layout.child_spec(1).bounds_spec(),
            self.label@,
            match self.text_size {
                Some(size) => size,
                None => default_size,
            },
            self.font,
            self.text_color,
            alignment::Horizontal::Left,
            alignment::Vertical::Center,
        );
        Scene::Group {
            primitives: if self.is_selected {
                seq![self.ring(circle, is_mouse_over), self.dot(circle, is_mouse_over), label]
            } else {
                seq![self.ring(circle, is_mouse_over), label]
            },
        }
    }

    /// Draws the button within the bounds that the layout gave it and its two
    /// parts. No layer is begun.
    pub fn draw<R: Renderer, B: PrimitiveBackend>(
        &self,
        renderer: &mut R,
        defaults: &Defaults,
        layout: Layout<'_>,
        cursor_position: Point,
        viewport: &Rectangle,
    ) -> (primitive: Primitive<B>)
        requires
            layout.len() >= 2,
        ensures
            primitive@ == self.scene(old(renderer).default_size_spec(), *defaults, layout, cursor_position),
            drawn(old(renderer), final(renderer), Seq::empty()),
    {
        let bounds = layout.bounds();
        let radio_layout = layout.child(0);
        let label_layout = layout.child(1);
        let radio_bounds = radio_layout.bounds();
        let text_size = match self.text_size {
            Some(size) => size,
            None => renderer.default_size(),
        };
        let label: Primitive<B> = fill_text(
            defaults,
            label_layout.bounds(),
            self.label.as_str(),
            text_size,
            self.font,
            self.text_color,
            alignment::Horizontal::Left,
            alignment::Vertical::Center,
        );
        let is_mouse_over = bounds.contains(cursor_position);
        let style = self.style.style(is_mouse_over);
        let size = radio_bounds.width;
        let dot_size = size / 2;
        let ring: Primitive<B> = Primitive::Quad {
            bounds: radio_bounds,
            background: style.background,
            border_radius: size / 2,
            border_width: style.border_width,
            border_color: style.border_color,
        };
        let mut primitives: Vec<Primitive<B>> = Vec::new();
        primitives.push(ring);
        if self.is_selected {
            let dot: Primitive<B> = Primitive::Quad {
                bounds: Rectangle {
                    x: to_i32(radio_bounds.x as i64 + (dot_size / 2) as i64),
                    y: to_i32(radio_bounds.y as i64 + (dot_size / 2) as i64),
                    width: sub_u32(radio_bounds.width, dot_size),
                    height: sub_u32(radio_bounds.height, dot_size),
                },
                background: Background::Color(style.dot_color),
                border_radius: dot_size / 2,
                border_width: 0,
                border_color: Color::transparent(),
            };
            primitives.push(dot);
        }
        primitives.push(label);
        let primitive = group(primitives);
        proof {
            let expected = self.scene(old(renderer).default_size_spec(), *defaults, layout, cursor_position);
            assert(primitive@->primitives =~= expected->primitives);
            assert(renderer.layers() + Seq::<Rectangle>::empty() =~= renderer.layers());
        }
        primitive
    }

    /// The bytes that the button contributes to the structural hash: its
    /// kind, its label, and the settings that shape its layout, which are its
    /// width policy, the size of the circle, the spacing and the size of the
    /// label. Whether it is selected, its message and its colors do not
    /// count.
    pub open spec fn fingerprint(&self) -> Seq<u8> {
        seq![3u8] + bytes_str(self.label@) + bytes_control(self.width, self.size, self.spacing, self.text_size)
    }

    /// Writes what decides the layout of the button to the structural hash.
    pub fn hash_layout(&self, state: &mut Hasher)
        ensures
            final(state).state == absorb(old(state).state, self.fingerprint()),
    {
        let ghost start = state.state;
        state.write_u8(3);
        state.write_str(self.label.as_str());
        proof {
            lemma_absorb_twice(start, seq![3u8], bytes_str(self.label@));
        }
        state.write_control(self.width, self.size, self.spacing, self.text_size);
        proof {
            lemma_absorb_twice(
                start,
                seq![3u8] + bytes_str(self.label@),
                bytes_control(self.width, self.size, self.spacing, self.text_size),
            );
        }
    }

    /// Sets the size of the radio button.
    pub fn size(self, size: u16) -> (radio: Radio<Message>)
        ensures
            radio == (Radio { size: size, ..self }),
    {
        let mut radio = self;
        radio.size = size;
        radio
    }

    /// Sets the width of the radio button.
    pub fn width(self, width: Length) -> (radio: Radio<Message>)
        ensures
            radio == (Radio { width: width, ..self }),
    {
        let mut radio = self;
        radio.width = width;
        radio
    }

    /// Sets the spacing between the radio button and the text.
    pub fn spacing(self, spacing: u16) -> (radio: Radio<Message>)
        ensures
            radio == (Radio { spacing: spacing, ..self }),
    {
        let mut radio = self;
        radio.spacing = spacing;
        radio
    }

    /// Sets the text size of the radio button.
    pub fn text_size(self, text_size: u16) -> (radio: Radio<Message>)
        ensures
            radio == (Radio { text_size: Some(text_size), ..self }),
    {
        let mut radio = self;
        radio.text_size = Some(text_size);
        radio
    }

    /// Sets the text color of the radio button.
    pub fn text_color(self, color: Color) -> (radio: Radio<Message>)
        ensures
            radio == (Radio { text_color: Some(color), ..self }),
    {
        let mut radio = self;
        radio.text_color = Some(color);
        radio
    }

    /// Sets the text font of the radio button.
    pub fn font(self, font: Font) -> (radio: Radio<Message>)
        ensures
            radio == (Radio { font: font, ..self }),
    {
        let mut radio = self;
        radio.font = font;
        radio
    }

    /// Sets the style of the radio button.
    pub fn style(self, style: StyleSheet) -> (radio: Radio<Message>)
        ensures
            radio == (Radio { style: style, ..self }),
    {
        let mut radio = self;
        radio.style = style;
        radio
    }
}

} // verus!
