//! Distribute content horizontally.
use vstd::prelude::*;

use crate::alignment::Alignment;
use crate::backend;
use crate::element::{
    draw_children, emitted_children, fit_children, items, on_event_children, overlays_children, paired,
    scenes_children, Element,
};
use crate::element::{fingerprints, hash_children};
use crate::event::{delivered, status_of, Event, Status};
use crate::hasher::{absorb, bytes_flex, lemma_absorb_twice, Hasher};
use crate::layout::Layout;
use crate::layout::flex::Axis;
use crate::layout::flex;
use crate::layout::item::Item;
use crate::layout::limits::Limits;
use crate::layout::node::Node;
use crate::length::Length;
use crate::padding::Padding;
use crate::point::Point;
use crate::primitive::{group, Primitive, PrimitiveBackend, Scene};
use crate::rectangle::Rectangle;
use crate::renderer::{drawn, Defaults, Renderer};

verus! {

/// A container that distributes its contents horizontally.
pub struct Row<Message> {
    /// The space between two children that follow each other.
    pub spacing: u16,
    /// The space around the children.
    pub padding: Padding,
    /// The width policy.
    pub width: Length,
    /// The height policy.
    pub height: Length,
    /// The largest width that the row takes.
    pub max_width: u32,
    /// The largest height that the row takes.
    pub max_height: u32,
    /// How the children are placed vertically.
    pub align_items: Alignment,
    /// The children, left to right.
    pub children: Vec<Element<Message>>,
}

impl<Message> Row<Message> {
    /// Creates an empty row.
    pub fn new() -> (row: Row<Message>)
        ensures
            row.children@ == Seq::<Element<Message>>::empty(),
            row.spacing == 0,
            row.padding == (Padding { top: 0, right: 0, bottom: 0, left: 0 }),
            row.width == Length::Shrink,
            row.height == Length::Shrink,
            row.max_width == u32::MAX,
            row.max_height == u32::MAX,
            row.align_items == Alignment::Start,
    {
        Row::with_children(Vec::new())
    }

    /// Creates a row with the given children.
    pub fn with_children(children: Vec<Element<Message>>) -> (row: Row<Message>)
        ensures
            row.children == children,
            row.spacing == 0,
            row.padding == (Padding { top: 0, right: 0, bottom: 0, left: 0 }),
            row.width == Length::Shrink,
            row.height == Length::Shrink,
            row.max_width == u32::MAX,
            row.max_height == u32::MAX,
            row.align_items == Alignment::Start,
    {
        Row {
            spacing: 0,
            padding: Padding::zero(),
            width: Length::Shrink,
            height: Length::Shrink,
            max_width: u32::MAX,
            max_height: u32::MAX,
            align_items: Alignment::Start,
            children,
        }
    }

    /// Sets the horizontal spacing between the children.
    pub fn spacing(self, units: u16) -> (row: Row<Message>)
        ensures
            row == (Row { spacing: units, ..self }),
    {
        let mut row = self;
        row.spacing = units;
        row
    }

    /// Sets the padding of the row.
    pub fn padding(self, padding: Padding) -> (row: Row<Message>)
        ensures
            row == (Row { padding, ..self }),
    {
        let mut row = self;
        row.padding = padding;
        row
    }

    /// Sets the width of the row.
    pub fn width(self, width: Length) -> (row: Row<Message>)
        ensures
            row == (Row { width, ..self }),
    {
        let mut row = self;
        row.width = width;
        row
    }

    /// Sets the height of the row.
    pub fn height(self, height: Length) -> (row: Row<Message>)
        ensures
            row == (Row { height, ..self }),
    {
        let mut row = self;
        row.height = height;
        row
    }

    /// Sets the largest width of the row.
    pub fn max_width(self, max_width: u32) -> (row: Row<Message>)
        ensures
            row == (Row { max_width, ..self }),
    {
        let mut row = self;
        row.max_width = max_width;
        row
    }

    /// Sets the largest height of the row.
    pub fn max_height(self, max_height: u32) -> (row: Row<Message>)
        ensures
            row == (Row { max_height, ..self }),
    {
        let mut row = self;
        row.max_height = max_height;
        row
    }

    /// Sets the vertical alignment of the children.
    pub fn align_items(self, align: Alignment) -> (row: Row<Message>)
        ensures
            row == (Row { align_items: align, ..self }),
    {
        let mut row = self;
        row.align_items = align;
        row
    }

    /// Adds a child at the end of the row.
    pub fn push(self, child: Element<Message>) -> (row: Row<Message>)
        ensures
            row.children@ == self.children@.push(child),
            row.spacing == self.spacing,
            row.padding == self.padding,
            row.width == self.width,
            row.height == self.height,
            row.max_width == self.max_width,
            row.max_height == self.max_height,
            row.align_items == self.align_items,
    {
        let mut row = self;
        row.children.push(child);
        row
    }

    /// What of the row decides its layout: its settings, and what of each
    /// child decides the child's layout.
    pub open spec fn item(&self) -> Item {
        Item::Flex {
            axis: Axis::Horizontal,
            spacing: self.spacing,
            padding: self.padding,
            width: self.width,
            height: self.height,
            max_width: self.max_width,
            max_height: self.max_height,
            align_items: self.align_items,
            children: items(self.children@),
        }
    }

    /// Lays the row out: its own sizing policy narrows the limits, and the
    /// children share the space inside them.
    pub fn layout<R: backend::Text>(&self, renderer: &R, limits: &Limits) -> (node: Node)
        ensures
            node@ == self.item().layout(renderer, *limits),
        decreases self.item(), 1nat, 0nat,
    {
        let limits = limits.max_width(self.max_width).max_height(self.max_height).width(self.width).height(
            self.height,
        );
        flex::resolve(
            Axis::Horizontal,
            renderer,
            &limits,
            self.padding,
            self.spacing,
            self.align_items,
            &self.children,
        )
    }

    /// Hands `event` to each child that has a node in `layout`, first to
    /// last. Each child appends its messages to the queue; the event is
    /// captured where any child captured it.
    pub fn on_event(
        &self,
        event: Event,
        layout: Layout<'_>,
        cursor_position: Point,
        messages: &mut Vec<Message>,
    ) -> (status: Status) where Message: Clone
        ensures
            status == status_of(
                emitted_children(
                    self.children@,
                    event,
                    layout,
                    cursor_position,
                    paired(self.children@.len(), layout),
                ),
            ),
            delivered(
                old(messages)@,
                final(messages)@,
                emitted_children(
                    self.children@,
                    event,
                    layout,
                    cursor_position,
                    paired(self.children@.len(), layout),
                ),
            ),
        decreases self,
    {
        on_event_children(&self.children, event, layout, cursor_position, messages)
    }

    /// Draws the children that have a node in `layout`, first to last, and
    /// groups their primitives in this order.
    pub fn draw<R: Renderer, B: PrimitiveBackend>(
        &self,
        renderer: &mut R,
        defaults: &Defaults,
        layout: Layout<'_>,
        cursor_position: Point,
        viewport: &Rectangle,
    ) -> (primitive: Primitive<B>)
        requires
            fit_children(self.children@, layout.node@.children),
        ensures
            primitive@ == (Scene::Group {
                primitives: scenes_children(
                    self.children@,
                    old(renderer),
                    *defaults,
                    layout,
                    cursor_position,
                    *viewport,
                ),
            }),
            drawn(
                old(renderer),
                final(renderer),
                overlays_children(
                    self.children@,
                    layout,
                    cursor_position,
                    *viewport,
                    paired(self.children@.len(), layout),
                ),
            ),
        decreases self,
    {
        group(draw_children(&self.children, renderer, defaults, layout, cursor_position, viewport))
    }

    /// The bytes of the settings of the row.
    pub open spec fn header(&self) -> Seq<u8> {
        bytes_flex(
            self.max_width,
            self.max_height,
            self.align_items,
            self.width,
            self.height,
            self.spacing,
            self.padding,
        )
    }

    /// Writes what decides the layout of the row to the structural hash: its
    /// kind, its settings, and what each child writes, first to last.
    pub fn hash_layout(&self, state: &mut Hasher)
        ensures
            final(state).state == absorb(
                old(state).state,
                seq![6u8] + self.header() + fingerprints(self.children@, self.children@.len()),
            ),
        decreases self,
    {
        let ghost start = state.state;
        state.write_u8(6);
        state.write_flex(
            self.max_width,
            self.max_height,
            self.align_items,
            self.width,
            self.height,
            self.spacing,
            self.padding,
        );
        proof {
            lemma_absorb_twice(start, seq![6u8], self.header());
        }
        hash_children(&self.children, state);
        proof {
            lemma_absorb_twice(
                start,
                seq![6u8] + self.header(),
                fingerprints(self.children@, self.children@.len()),
            );
        }
    }
}

} // verus!
