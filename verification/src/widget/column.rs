//! Distribute content vertically.
use vstd::prelude::*;

use crate::alignment::Alignment;
use crate::backend;
use crate::element::{
    draw_children, emitted_children, fit_children, items, on_event_children, overlays_children, paired,
    scenes_children, Element,
};
use crate::element::{fingerprints, hash_children};
use crate::event::{delivered, status_of, Event, Status};
use crate::hasher::{absorb, bytes_flex, lemma_absorb_twice, Hasher};
use crate::layout::Layout;
use crate::layout::flex::Axis;
use crate::layout::flex;
use crate::layout::item::Item;
use crate::layout::limits::Limits;
use crate::layout::node::Node;
use crate::length::Length;
use crate::padding::Padding;
use crate::point::Point;
use crate::primitive::{group, Primitive, PrimitiveBackend, Scene};
use crate::rectangle::Rectangle;
use crate::renderer::{drawn, Defaults, Renderer};

verus! {

/// A container that distributes its contents vertically.
pub struct Column<Message> {
    /// The space between two children that follow each other.
    pub spacing: u16,
    /// The space around the children.
    pub padding: Padding,
    /// The width policy.
    pub width: Length,
    /// The height policy.
    pub height: Length,
    /// The largest width that the column takes.
    pub max_width: u32,
    /// The largest height that the column takes.
    pub max_height: u32,
    /// How the children are placed horizontally.
    pub align_items: Alignment,
    /// The children, top to bottom.
    pub children: Vec<Element<Message>>,
}

impl<Message> Column<Message> {
    /// Creates an empty column.
    pub fn new() -> (column: Column<Message>)
        ensures
            column.children@ == Seq::<Element<Message>>::empty(),
            column.spacing == 0,
            column.padding == (Padding { top: 0, right: 0, bottom: 0, left: 0 }),
            column.width == Length::Shrink,
            column.height == Length::Shrink,
            column.max_width == u32::MAX,
            column.max_height == u32::MAX,
            column.align_items == Alignment::Start,
    {
        Column::with_children(Vec::new())
    }

    /// Creates a column with the given children.
    pub fn with_children(children: Vec<Element<Message>>) -> (column: Column<Message>)
        ensures
            column.children == children,
            column.spacing == 0,
            column.padding == (Padding { top: 0, right: 0, bottom: 0, left: 0 }),
            column.width == Length::Shrink,
            column.height == Length::Shrink,
            column.max_width == u32::MAX,
            column.max_height == u32::MAX,
            column.align_items == Alignment::Start,
    {
        Column {
            spacing: 0,
            padding: Padding::zero(),
            width: Length::Shrink,
            height: Length::Shrink,
            max_width: u32::MAX,
            max_height: u32::MAX,
            align_items: Alignment::Start,
            children,
        }
    }

    /// Sets the vertical spacing between the children.
    pub fn spacing(self, units: u16) -> (column: Column<Message>)
        ensures
            column == (Column { spacing: units, ..self }),
    {
        let mut column = self;
        column.spacing = units;
        column
    }

    /// Sets the padding of the column.
    pub fn padding(self, padding: Padding) -> (column: Column<Message>)
        ensures
            column == (Column { padding, ..self }),
    {
        let mut column = self;
        column.padding = padding;
        column
    }

    /// Sets the width of the column.
    pub fn width(self, width: Length) -> (column: Column<Message>)
        ensures
            column == (Column { width, ..self }),
    {
        let mut column = self;
        column.width = width;
        column
    }

    /// Sets the height of the column.
    pub fn height(self, height: Length) -> (column: Column<Message>)
        ensures
            column == (Column { height, ..self }),
    {
        let mut column = self;
        column.height = height;
        column
    }

    /// Sets the largest width of the column.
    pub fn max_width(self, max_width: u32) -> (column: Column<Message>)
        ensures
            column == (Column { max_width, ..self }),
    {
        let mut column = self;
        column.max_width = max_width;
        column
    }

    /// Sets the largest height of the column.
    pub fn max_height(self, max_height: u32) -> (column: Column<Message>)
        ensures
            column == (Column { max_height, ..self }),
    {
        let mut column = self;
        column.max_height = max_height;
        column
    }

    /// Sets the horizontal alignment of the children.
    pub fn align_items(self, align: Alignment) -> (column: Column<Message>)
        ensures
            column == (Column { align_items: align, ..self }),
    {
        let mut column = self;
        column.align_items = align;
        column
    }

    /// Adds a child at the end of the column.
    pub fn push(self, child: Element<Message>) -> (column: Column<Message>)
        ensures
            column.children@ == self.children@.push(child),
            column.spacing == self.spacing,
            column.padding == self.padding,
            column.width == self.width,
            column.height == self.height,
            column.max_width == self.max_width,
            column.max_height == self.max_height,
            column.align_items == self.align_items,
    {
        let mut column = self;
        column.children.push(child);
        column
    }

    /// What of the column decides its layout: its settings, and what of each
    /// child decides the child's layout.
    pub open spec fn item(&self) -> Item {
        Item::Flex {
            axis: Axis::Vertical,
            spacing: self.spacing,
            padding: self.padding,
            width: self.width,
            height: self.height,
            max_width: self.max_width,
            max_height: self.max_height,
            align_items: self.align_items,
            children: items(self.children@),
        }
    }

    /// Lays the column out: its own sizing policy narrows the limits, and the
    /// children share the space inside them.
    pub fn layout<R: backend::Text>(&self, renderer: &R, limits: &Limits) -> (node: Node)
        ensures
            node@ == self.item().layout(renderer, *limits),
        decreases self.item(), 1nat, 0nat,
    {
        let limits = limits.max_width(self.max_width).max_height(self.max_height).width(self.width).height(
            self.height,
        );
        flex::resolve(
            Axis::Vertical,
            renderer,
            &limits,
            self.padding,
            self.spacing,
            self.align_items,
            &self.children,
        )
    }

    /// Hands `event` to each child that has a node in `layout`, first to
    /// last. Each child appends its messages to the queue; the event is
    /// captured where any child captured it.
    pub fn on_event(
        &self,
        event: Event,
        layout: Layout<'_>,
        cursor_position: Point,
        messages: &mut Vec<Message>,
    ) -> (status: Status) where Message: Clone
        ensures
            status == status_of(
                emitted_children(
                    self.children@,
                    event,
                    layout,
                    cursor_position,
                    paired(self.children@.len(), layout),
                ),
            ),
            delivered(
                old(messages)@,
                final(messages)@,
                emitted_children(
                    self.children@,
                    event,
                    layout,
                    cursor_position,
                    paired(self.children@.len(), layout),
                ),
            ),
        decreases self,
    {
        on_event_children(&self.children, event, layout, cursor_position, messages)
    }

    /// Draws the children that have a node in `layout`, first to last, and
    /// groups their primitives in this order.
    pub fn draw<R: Renderer, B: PrimitiveBackend>(
        &self,
        renderer: &mut R,
        defaults: &Defaults,
        layout: Layout<'_>,
        cursor_position: Point,
        viewport: &Rectangle,
    ) -> (primitive: Primitive<B>)
        requires
            fit_children(self.children@, layout.node@.children),
        ensures
            primitive@ == (Scene::Group {
                primitives: scenes_children(
                    self.children@,
                    old(renderer),
                    *defaults,
                    layout,
                    cursor_position,
                    *viewport,
                ),
            }),
            drawn(
                old(renderer),
                final(renderer),
                overlays_children(
                    self.children@,
                    layout,
                    cursor_position,
                    *viewport,
                    paired(self.children@.len(), layout),
                ),
            ),
        decreases self,
    {
        group(draw_children(&self.children, renderer, defaults, layout, cursor_position, viewport))
    }

    /// The bytes of the settings of the column.
    pub open spec fn header(&self) -> Seq<u8> {
        bytes_flex(
            self.max_width,
            self.max_height,
            self.align_items,
            self.width,
            self.height,
            self.spacing,
            self.padding,
        )
    }

    /// Writes what decides the layout of the column to the structural hash: its
    /// kind, its settings, and what each child writes, first to last.
    pub fn hash_layout(&self, state: &mut Hasher)
        ensures
            final(state).state == absorb(
                old(state).state,
                seq![7u8] + self.header() + fingerprints(self.children@, self.children@.len()),
            ),
        decreases self,
    {
        let ghost start = state.state;
        state.write_u8(7);
        state.write_flex(
            self.max_width,
            self.max_height,
            self.align_items,
            self.width,
            self.height,
            self.spacing,
            self.padding,
        );
        proof {
            lemma_absorb_twice(start, seq![7u8], self.header());
        }
        hash_children(&self.children, state);
        proof {
            lemma_absorb_twice(
                start,
                seq![7u8] + self.header(),
                fingerprints(self.children@, self.children@.len()),
            );
        }
    }
}

} // verus!
