//! Show toggle controls using togglers.
use vstd::prelude::*;

use crate::alignment::Alignment;
use crate::alignment;
use crate::backend;
use crate::background::Background;
use crate::color::Color;
use crate::element::{items, Element};
use crate::event::{Event, Status};
use crate::font::Font;
use crate::hasher::{absorb, bytes_control, bytes_str, lemma_absorb_twice, Hasher};
use crate::layout::Layout;
use crate::layout::flex::{Axis, Flex};
use crate::layout::item::{lemma_fill_takes_width, problem, Item};
use crate::layout::limits::Limits;
use crate::layout::node::Node;
use crate::length::Length;
use crate::padding::Padding;
use crate::point::Point;
use crate::primitive::{group, Primitive, PrimitiveBackend, Scene};
use crate::rectangle::Rectangle;
use crate::renderer::{drawn, Defaults, Renderer};
use crate::style::toggler::Style;
use crate::style::toggler::StyleSheet;
use crate::units::{clamp_i32, clamp_u32, max_int, sub_u32, to_i32};
use crate::widget::row::Row;
use crate::widget::text::Text;
use crate::widget::text::{fill_text, text_scene};

verus! {

/// A toggler: a switch with an optional label.
pub struct Toggler<Message> {
    /// Whether the switch is on.
    pub is_active: bool,
    /// The message that toggling the switch produces: the one that the
    /// application has for the other position of the switch.
    pub on_toggle: Message,
    /// The label of the toggler, if it has one.
    pub label: Option<String>,
    /// The width policy.
    pub width: Length,
    /// The height of the switch; it is twice as wide.
    pub size: u16,
    /// The size of the label, where it is not the default of the backend.
    pub text_size: Option<u16>,
    /// Where the label stands horizontally within its bounds.
    pub text_alignment: alignment::Horizontal,
    /// The space between the label and the switch.
    pub spacing: u16,
    /// The font of the label.
    pub font: Font,
    /// The looks of the toggler.
    pub style: StyleSheet,
}

impl<Message> Toggler<Message> {
    /// The width of the switch: twice its height, or the largest length that
    /// a policy can ask for.
    pub open spec fn switch_width(&self) -> u16 {
        if 2 * self.size > u16::MAX {
            u16::MAX
        } else {
            (2 * self.size) as u16
        }
    }

    /// The box of the switch, as far as layout goes.
    pub open spec fn switch_item(&self) -> Item {
        Item::Flex {
            axis: Axis::Horizontal,
            spacing: 0,
            padding: Padding { top: 0, right: 0, bottom: 0, left: 0 },
            width: Length::Units(self.switch_width()),
            height: Length::Units(self.size),
            max_width: u32::MAX,
            max_height: u32::MAX,
            align_items: Alignment::Start,
            children: Seq::empty(),
        }
    }

    /// The label `label`, as far as layout goes: text in the font of the
    /// toggler that takes its width policy.
    pub open spec fn label_item(&self, label: Seq<char>) -> Item {
        Item::Text { content: label, size: self.text_size, font: self.font, width: self.width, height: Length::Shrink }
    }

    /// What of the toggler decides its layout: a row of the label, if there
    /// is one, and the switch, centered vertically, the spacing between them.
    pub open spec fn item(&self) -> Item {
        Item::Flex {
            axis: Axis::Horizontal,
            spacing: self.spacing,
            padding: Padding { top: 0, right: 0, bottom: 0, left: 0 },
            width: self.width,
            height: Length::Shrink,
            max_width: u32::MAX,
            max_height: u32::MAX,
            align_items: Alignment::Center,
            children: match self.label {
                Some(label) => seq![self.label_item(label@), self.switch_item()],
                None => seq![self.switch_item()],
            },
        }
    }

    /// Creates a new toggler.
    ///
    /// It expects whether the switch is on, an optional label, and a function
    /// that is called with the other position of the switch and gives the
    /// message that toggling produces.
    pub fn new<F>(is_active: bool, label: Option<String>, f: F) -> (toggler: Toggler<Message>)
        where
            F: Fn(bool) -> Message,
        requires
            call_requires(f, (!is_active,)),
        ensures
            toggler.is_active == is_active,
            call_ensures(f, (!is_active,), toggler.on_toggle),
            toggler.label == label,
            toggler.width == Length::Fill,
            toggler.size == 20,
            toggler.text_size is None,
            toggler.text_alignment == alignment::Horizontal::Left,
            toggler.spacing == 0,
            toggler.font == Font::Default,
            toggler.style == StyleSheet::default_spec(),
    {
        Toggler {
            is_active,
            on_toggle: f(!is_active),
            label,
            width: Length::Fill,
            size: 20,
            text_size: None,
            text_alignment: alignment::Horizontal::Left,
            spacing: 0,
            font: Font::Default,
            style: StyleSheet::default(),
        }
    }

    /// Lays the toggler out: a row of the label, if there is one, and the
    /// switch, twice as wide as it is high, centered vertically, the spacing
    /// between them.
    pub fn layout<R: backend::Text>(&self, renderer: &R, limits: &Limits) -> (node: Node)
        ensures
            node@ == self.item().layout(renderer, *limits),
        decreases self.item(), 2nat, 0nat,
    {
        let mut row: Row<Message> = Row::new().width(self.width).spacing(self.spacing).align_items(Alignment::Center);
        if let Some(label) = &self.label {
            let mut text = Text::new(label.as_str()).horizontal_alignment(self.text_alignment).font(
                self.font,
            ).width(self.width);
            if let Some(size) = self.text_size {
                text = text.size(size);
            }
            row = row.push(Element::Text(text));
        }
        let switch_width: u16 = if self.size > u16::MAX / 2 {
            u16::MAX
        } else {
            2 * self.size
        };
        let switch: Row<Message> = Row::new().width(Length::Units(switch_width)).height(Length::Units(self.size));
        row = row.push(Element::Row(switch));
        proof {
            assert(items(switch.children@) =~= Seq::<Item>::empty());
            match &self.label {
                Some(label) => {
                    assert(row.children@[0].item() == self.label_item(label@));
                    assert(row.children@[1].item() == self.switch_item());
                    assert(items(row.children@) =~= seq![self.label_item(label@), self.switch_item()]);
                },
                None => {
                    assert(row.children@[0].item() == self.switch_item());
                    assert(items(row.children@) =~= seq![self.switch_item()]);
                },
            }
            assert(row.item() == self.item());
        }
        row.layout(renderer, limits)
    }

    /// In a toggler that fills its width and has a label, the label takes all
    /// the width that the switch and the spacing leave: within limits that
    /// have room for the switch and the spacing, the switch is as wide as it
    /// asks, the label is as wide as the rest, the switch follows one spacing
    /// after the label, and the toggler is as wide as the limits allow.
    pub proof fn lemma_label_takes_the_rest<R: backend::Text>(self, renderer: &R, limits: Limits)
        requires
            self.width.fill_factor_spec() > 0,
            self.label is Some,
            limits.min.width <= limits.max.width,
            self.switch_width() + self.spacing <= limits.max.width,
        ensures
            ({
                let tree = self.item().layout(renderer, limits);
                let rest = limits.max.width - self.switch_width() - self.spacing;
                &&& tree.children.len() == 2
                &&& tree.children[0].bounds.x == 0
                &&& tree.children[0].bounds.width == rest
                &&& tree.children[1].bounds.x == clamp_i32(rest + self.spacing)
                &&& tree.children[1].bounds.width == self.switch_width()
                &&& tree.bounds.width == limits.max.width
            }),
    {
        let label = self.label->0;
        let children = seq![self.label_item(label@), self.switch_item()];
        let narrowed = Item::narrowed(limits, self.width, Length::Shrink, u32::MAX, u32::MAX);
        let flex = problem(
            Axis::Horizontal,
            narrowed,
            Padding { top: 0, right: 0, bottom: 0, left: 0 },
            self.spacing,
            Alignment::Center,
            children,
            renderer,
        );
        let tree = flex.tree();
        assert(self.item().layout(renderer, limits) == tree);
        assert(flex.count() == 2);
        assert(flex.main_factor(0) == self.width.fill_factor_spec());
        assert(flex.main_factor(1) == 0);
        assert(self.spacing * max_int(2 - 1, 0) == self.spacing) by (nonlinear_arith);
        assert(flex.total_spacing() == self.spacing);
        assert(flex.space() == limits.max.width - self.spacing);
        reveal_with_fuel(Flex::weight, 3);
        reveal_with_fuel(Flex::available, 3);
        reveal_with_fuel(Flex::main_start, 3);
        assert(flex.available(1) == flex.space());
        let switch = flex.sized(1);
        assert(switch == self.switch_item().layout(renderer, flex.fixed_limits(flex.space())));
        assert(switch.bounds.width == self.switch_width());
        assert(flex.remaining() == limits.max.width - self.spacing - self.switch_width());
        assert(flex.weight(1) == flex.total_weight());
        flex.lemma_cut_monotone(0, 2);
        assert(flex.cut(1) == flex.cut(2));
        assert(flex.share(0) == flex.remaining());
        lemma_fill_takes_width(self.label_item(label@), renderer, flex.fill_limits(flex.remaining()));
        assert(flex.sized(0).bounds.width == flex.remaining());
        assert(tree.children[0] == flex.placed(0));
        assert(tree.children[1] == flex.placed(1));
    }

    /// Whether `event` with the cursor at `cursor_position` toggles the switch
    /// laid out as `layout`: a press of the left mouse button or of a finger,
    /// while the bounds of the toggler contain the cursor.
    pub open spec fn is_toggled(&self, event: Event, layout: Layout<'_>, cursor_position: Point) -> bool {
        event.is_press_spec() && layout.bounds_spec().contains_spec(cursor_position)
    }

    /// Handles an event. A press of the left mouse button or of a finger on
    /// the toggler appends one message, a clone of the one that the
    /// application has for the other position of the switch, and captures the
    /// event; any other event is ignored and appends nothing.
    pub fn on_event(
        &self,
        event: Event,
        layout: Layout<'_>,
        cursor_position: Point,
        messages: &mut Vec<Message>,
    ) -> (status: Status) where Message: Clone
        ensures
            status == if self.is_toggled(event, layout, cursor_position) {
                Status::Captured
            } else {
                Status::Ignored
            },
            self.is_toggled(event, layout, cursor_position) ==> final(messages)@.len() == old(messages)@.len() + 1
                && final(messages)@.drop_last() == old(messages)@ && cloned(self.on_toggle, final(messages)@.last()),
            !self.is_toggled(event, layout, cursor_position) ==> final(messages)@ == old(messages)@,
    {
        if event.is_press() {
            let mouse_over = layout.bounds().contains(cursor_position);
            if mouse_over {
                messages.push(self.on_toggle.clone());
                assert(messages@.drop_last() =~= old(messages)@);
                Status::Captured
            } else {
                Status::Ignored
            }
        } else {
            Status::Ignored
        }
    }

    /// The number of parts of the toggler, and of nodes of its layout: the
    /// switch, and the label if there is one.
    pub open spec fn parts(&self) -> nat {
        if self.label is Some {
            2
        } else {
            1
        }
    }

    /// The margin between the edge of the switch and its track, and between
    /// the track and the knob: a twentieth of the height of the switch.
    pub open spec fn margin(switch: Rectangle) -> u32 {
        switch.height / 20
    }

    /// The radius of the corners of track and knob.
    pub open spec fn radius(switch: Rectangle) -> u32 {
        (switch.height as int * 13 / 32) as u32
    }

    /// The primitive of the track within the bounds `switch` of the switch.
    pub open spec fn track(switch: Rectangle, style: Style) -> Scene {
        let space = Self::margin(switch);
        Scene::Quad {
            bounds: Rectangle {
                x: clamp_i32(switch.x + space),
                y: clamp_i32(switch.y + space),
                width: clamp_u32(switch.width - 2 * space),
                height: clamp_u32(switch.height - 2 * space),
            },
            background: Background::Color(style.background),
            border_radius: Self::radius(switch),
            border_width: 1,
            border_color: match style.background_border {
                Some(color) => color,
                None => style.background,
            },
        }
    }

    /// The primitive of the knob within the bounds `switch` of the switch: a
    /// square at the right end of the track where the switch is on, at the
    /// left end where it is off.
    pub open spec fn knob(switch: Rectangle, style: Style, is_active: bool) -> Scene {
        let space = Self::margin(switch);
        let side = clamp_u32(switch.height - 4 * space);
        Scene::Quad {
            bounds: Rectangle {
                x: clamp_i32(
                    switch.x + if is_active {
                        clamp_u32(clamp_u32(switch.width - 2 * space) - side) as int
                    } else {
                        2 * space
                    },
                ),
                y: clamp_i32(switch.y + 2 * space),
                width: side,
                height: side,
            },
            background: Background::Color(style.foreground),
            border_radius: Self::radius(switch),
            border_width: 1,
            border_color: match style.foreground_border {
                Some(color) => color,
                None => style.foreground,
            },
        }
    }

    /// The primitive of the toggler when it is laid out as `layout`, a row of
    /// the label, if there is one, and the switch: the label, the track and
    /// the knob, in this order. The cursor over the bounds of the toggler
    /// picks the hovered style.
    pub open spec fn scene(
        &self,
        default_size: u16,
        defaults: Defaults,
        layout: Layout<'_>,
        cursor_position: Point,
    ) -> Scene {
        let is_mouse_over = layout.bounds_spec().contains_spec(cursor_position);
        let style = self.style.style_spec(is_mouse_over, self.is_active);
        match self.label {
            Some(label) => {
                let switch = layout.child_spec(1).bounds_spec();
                Scene::Group {
                    primitives: seq![
                        text_scene(
                            defaults,
                            layout.child_spec(0).bounds_spec(),
                            label@,
                            match self.text_size {
                                Some(size) => size,
                                None => default_size,
                            },
                            self.font,
                            None,
                            self.text_alignment,
                            alignment::Vertical::Center,
                        ),
                        Self::track(switch, style),
                        Self::knob(switch, style, self.is_active),
                    ],
                }
            },
            None => {
                let switch = layout.child_spec(0).bounds_spec();
                Scene::Group { primitives: seq![Self::track(switch, style), Self::knob(switch, style, self.is_active)] }
            },
        }
    }

    /// Draws the toggler within the bounds that the layout gave it and its
    /// parts. No layer is begun.
    pub fn draw<R: Renderer, B: PrimitiveBackend>(
        &self,
        renderer: &mut R,
        defaults: &Defaults,
        layout: Layout<'_>,
        cursor_position: Point,
        viewport: &Rectangle,
    ) -> (primitive: Primitive<B>)
        requires
            layout.len() >= self.parts(),
        ensures
            primitive@ == self.scene(old(renderer).default_size_spec(), *defaults, layout, cursor_position),
            drawn(old(renderer), final(renderer), Seq::empty()),
    {
        let bounds = layout.bounds();
        let mut primitives: Vec<Primitive<B>> = Vec::new();
        let toggler_layout = match &self.label {
            Some(label) => {
                let label_layout = layout.child(0);
                let text_size = match self.text_size {
                    Some(size) => size,
                    None => renderer.default_size(),
                };
                primitives.push(
                    fill_text(
                        defaults,
                        label_layout.bounds(),
                        label.as_str(),
                        text_size,
                        self.font,
                        None,
                        self.text_alignment,
                        alignment::Vertical::Center,
                    ),
                );
                layout.child(1)
            },
            None => layout.child(0),
        };
        let switch = toggler_layout.bounds();
        let is_mouse_over = bounds.contains(cursor_position);
        let style = self.style.style(is_mouse_over, self.is_active);
        let radius: u32 = (switch.height as u64 * 13 / 32) as u32;
        let space: u32 = switch.height / 20;
        let track_width = sub_u32(switch.width, 2 * space);
        let side = sub_u32(switch.height, 4 * space);
        primitives.push(
            Primitive::Quad {
                bounds: Rectangle {
                    x: to_i32(switch.x as i64 + space as i64),
                    y: to_i32(switch.y as i64 + space as i64),
                    width: track_width,
                    height: sub_u32(switch.height, 2 * space),
                },
                background: Background::Color(style.background),
                border_radius: radius,
                border_width: 1,
                border_color: match style.background_border {
                    Some(color) => color,
                    None => style.background,
                },
            },
        );
        let knob_offset: u32 = if self.is_active {
            sub_u32(track_width, side)
        } else {
            2 * space
        };
        primitives.push(
            Primitive::Quad {
                bounds: Rectangle {
                    x: to_i32(switch.x as i64 + knob_offset as i64),
                    y: to_i32(switch.y as i64 + (2 * space) as i64),
                    width: side,
                    height: side,
                },
                background: Background::Color(style.foreground),
                border_radius: radius,
                border_width: 1,
                border_color: match style.foreground_border {
                    Some(color) => color,
                    None => style.foreground,
                },
            },
        );
        let primitive = group(primitives);
        proof {
            let expected = self.scene(old(renderer).default_size_spec(), *defaults, layout, cursor_position);
            assert(primitive@->primitives =~= expected->primitives);
            assert(renderer.layers() + Seq::<Rectangle>::empty() =~= renderer.layers());
        }
        primitive
    }

    /// The bytes that tell whether the toggler has a label, and which.
    pub open spec fn label_bytes(&self) -> Seq<u8> {
        match self.label {
            Some(label) => seq![1u8] + bytes_str(label@),
            None => seq![0u8],
        }
    }

    /// The bytes that the toggler contributes to the structural hash: its
    /// kind, its label if it has one, and the settings that shape its layout,
    /// which are its width policy, the size of the switch, the spacing and the
    /// size of the label. The position of the switch, its message and its
    /// colors do not count.
    pub open spec fn fingerprint(&self) -> Seq<u8> {
        seq![4u8] + self.label_bytes() + bytes_control(self.width, self.size, self.spacing, self.text_size)
    }

    /// Writes what decides the layout of the toggler to the structural hash.
    pub fn hash_layout(&self, state: &mut Hasher)
        ensures
            final(state).state == absorb(old(state).state, self.fingerprint()),
    {
        let ghost start = state.state;
        state.write_u8(4);
        let ghost kind = state.state;
        match &self.label {
            Some(label) => {
                state.write_u8(1);
                state.write_str(label.as_str());
                proof {
                    lemma_absorb_twice(kind, seq![1u8], bytes_str(label@));
                }
            },
            None => {
                state.write_u8(0);
            },
        }
        proof {
            lemma_absorb_twice(start, seq![4u8], self.label_bytes());
        }
        state.write_control(self.width, self.size, self.spacing, self.text_size);
        proof {
            lemma_absorb_twice(
                start,
                seq![4u8] + self.label_bytes(),
                bytes_control(self.width, self.size, self.spacing, self.text_size),
            );
        }
    }

    /// Sets the size of the toggler.
    pub fn size(self, size: u16) -> (toggler: Toggler<Message>)
        ensures
            toggler == (Toggler { size: size, ..self }),
    {
        let mut toggler = self;
        toggler.size = size;
        toggler
    }

    /// Sets the width of the toggler.
    pub fn width(self, width: Length) -> (toggler: Toggler<Message>)
        ensures
            toggler == (Toggler { width: width, ..self }),
    {
        let mut toggler = self;
        toggler.width = width;
        toggler
    }

    /// Sets the text size of the toggler.
    pub fn text_size(self, text_size: u16) -> (toggler: Toggler<Message>)
        ensures
            toggler == (Toggler { text_size: Some(text_size), ..self }),
    {
        let mut toggler = self;
        toggler.text_size = Some(text_size);
        toggler
    }

    /// Sets the horizontal alignment of the text of the toggler.
    pub fn text_alignment(self, alignment: alignment::Horizontal) -> (toggler: Toggler<Message>)
        ensures
            toggler == (Toggler { text_alignment: alignment, ..self }),
    {
        let mut toggler = self;
        toggler.text_alignment = alignment;
        toggler
    }

    /// Sets the spacing between the toggler and the text.
    pub fn spacing(self, spacing: u16) -> (toggler: Toggler<Message>)
        ensures
            toggler == (Toggler { spacing: spacing, ..self }),
    {
        let mut toggler = self;
        toggler.spacing = spacing;
        toggler
    }

    /// Sets the font of the text of the toggler.
    pub fn font(self, font: Font) -> (toggler: Toggler<Message>)
        ensures
            toggler == (Toggler { font: font, ..self }),
    {
        let mut toggler = self;
        toggler.font = font;
        toggler
    }

    /// Sets the style of the toggler.
    pub fn style(self, style: StyleSheet) -> (toggler: Toggler<Message>)
        ensures
            toggler == (Toggler { style: style, ..self }),
    {
        let mut toggler = self;
        toggler.style = style;
        toggler
    }
}

} // verus!
