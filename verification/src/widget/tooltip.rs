//! Display a widget over another.
use vstd::prelude::*;

use crate::alignment;
use crate::backend;
use crate::element::{lemma_scene_same_text, Element};
use crate::event::{delivered, status_of, Event, Status};
use crate::font::Font;
use crate::hasher::{absorb, lemma_absorb_twice, Hasher};
use crate::layout::Layout;
use crate::layout::limits::Limits;
use crate::layout::node::Node;
use crate::length::Length;
use crate::padding::Padding;
use crate::point::Point;
use crate::primitive::{group, Primitive, PrimitiveBackend, Scene};
use crate::rectangle::Rectangle;
use crate::renderer::{drawn, Defaults, Renderer};
use crate::renderer;
use crate::size::Size;
use crate::style::container::Style;
use crate::units::{add_u32, clamp_i32, clamp_u32, half, to_i32};
use crate::vector::{Offset, Vector};
use crate::widget::text::Text;

verus! {

/// The position of the tooltip. Defaults to following the cursor.
#[derive(Debug, Clone, Copy, PartialEq, Eq, Structural)]
pub enum Position {
    /// The tooltip will follow the cursor.
    FollowCursor,
    /// The tooltip will appear on the top of the widget.
    Top,
    /// The tooltip will appear on the bottom of the widget.
    Bottom,
    /// The tooltip will appear on the left of the widget.
    Left,
    /// The tooltip will appear on the right of the widget.
    Right,
}

/// Where a tooltip is asked to stand along one axis on which it is centered
/// against the widget: the start of the text, so that the middles of text and
/// widget agree; halves round towards the start.
pub open spec fn centered(start: i32, extent: u32, text: u32) -> int {
    start + (extent - text) / 2
}

/// The top-left corner of the box of a tooltip as `position` asks for it,
/// before the viewport is taken into account. `bounds` are those of the
/// widget, `text` is the size of the text of the tooltip.
pub open spec fn requested(
    position: Position,
    bounds: Rectangle,
    text: Size,
    gap: u16,
    padding: u16,
    cursor_position: Point,
) -> (int, int) {
    let offset = match position {
        Position::Top => (
            centered(bounds.x, bounds.width, text.width),
            bounds.y - text.height - gap - padding,
        ),
        Position::Bottom => (
            centered(bounds.x, bounds.width, text.width),
            bounds.y + bounds.height + gap + padding,
        ),
        Position::Left => (
            bounds.x - text.width - gap - padding,
            centered(bounds.y, bounds.height, text.height),
        ),
        Position::Right => (
            bounds.x + bounds.width + gap + padding,
            centered(bounds.y, bounds.height, text.height),
        ),
        Position::FollowCursor => (cursor_position.x as int, cursor_position.y - text.height),
    };
    (offset.0 - padding, offset.1 - padding)
}

/// Where an extent that is asked to start at `requested` starts once it is
/// confined to the space from `start` on: moved to the start where it would
/// begin before it, else moved back where it would end after the space, and
/// left alone where it fits.
pub open spec fn confine(requested: int, extent: int, start: int, space: int) -> int {
    if requested < start {
        start
    } else if start + space < requested + extent {
        start + space - extent
    } else {
        requested
    }
}

/// The extent of the box of a tooltip along one axis: the text and the
/// padding on either side of it.
pub open spec fn boxed(text: u32, padding: u16) -> u32 {
    clamp_u32(text + 2 * padding)
}

/// The bounds of the box of a tooltip: as large as its text and padding, at
/// the place that `position` asks for, shifted as little as it takes to lie
/// inside `viewport`, and never resized.
pub open spec fn overlay_bounds(
    position: Position,
    bounds: Rectangle,
    text: Size,
    gap: u16,
    padding: u16,
    cursor_position: Point,
    viewport: Rectangle,
) -> Rectangle {
    let corner = requested(position, bounds, text, gap, padding, cursor_position);
    let width = boxed(text.width, padding);
    let height = boxed(text.height, padding);
    Rectangle {
        x: clamp_i32(confine(corner.0, width as int, viewport.x as int, viewport.width as int)),
        y: clamp_i32(confine(corner.1, height as int, viewport.y as int, viewport.height as int)),
        width,
        height,
    }
}

/// A tooltip that is no larger than the viewport lies fully inside it,
/// wherever it was asked to stand. On each axis, a tooltip that would begin
/// before the viewport begins exactly where the viewport does, and a tooltip
/// that fits where it was asked to stand is not moved.
pub proof fn lemma_overlay_confined(
    position: Position,
    bounds: Rectangle,
    text: Size,
    gap: u16,
    padding: u16,
    cursor_position: Point,
    viewport: Rectangle,
)
    ensures
        ({
            let overlay = overlay_bounds(position, bounds, text, gap, padding, cursor_position, viewport);
            let corner = requested(position, bounds, text, gap, padding, cursor_position);
            &&& overlay.width == boxed(text.width, padding) && overlay.height == boxed(text.height, padding)
            &&& overlay.width <= viewport.width && overlay.height <= viewport.height ==> viewport.encloses(overlay)
            &&& corner.0 < viewport.x ==> overlay.x == viewport.x
            &&& corner.1 < viewport.y ==> overlay.y == viewport.y
            &&& viewport.x <= corner.0 && corner.0 + overlay.width <= viewport.right() ==> overlay.x == clamp_i32(
                corner.0,
            )
            &&& viewport.y <= corner.1 && corner.1 + overlay.height <= viewport.bottom() ==> overlay.y
                == clamp_i32(corner.1)
        }),
{
}

/// Where an extent that is asked to start at `requested` starts once it is
/// confined to the space from `start` on; the result saturates.
fn confine_axis(requested: i64, extent: u32, start: i32, space: u32) -> (r: i32)
    requires
        -0x4_0000_0000 <= requested <= 0x4_0000_0000,
    ensures
        r == clamp_i32(confine(requested as int, extent as int, start as int, space as int)),
{
    if requested < start as i64 {
        start
    } else if start as i64 + (space as i64) < requested + extent as i64 {
        to_i32(start as i64 + space as i64 - extent as i64)
    } else {
        to_i32(requested)
    }
}

/// Computes the bounds of the box of a tooltip: see [`overlay_bounds`].
pub fn place_overlay(
    position: Position,
    bounds: Rectangle,
    text: Size,
    gap: u16,
    padding: u16,
    cursor_position: Point,
    viewport: Rectangle,
) -> (overlay: Rectangle)
    ensures
        overlay == overlay_bounds(position, bounds, text, gap, padding, cursor_position, viewport),
{
    let gap = gap as i64;
    let pad = padding as i64;
    let x_center: i64 = bounds.x as i64 + half(bounds.width as i64 - text.width as i64);
    let y_center: i64 = bounds.y as i64 + half(bounds.height as i64 - text.height as i64);
    let (offset_x, offset_y): (i64, i64) = match position {
        Position::Top => (x_center, bounds.y as i64 - text.height as i64 - gap - pad),
        Position::Bottom => (x_center, bounds.y as i64 + bounds.height as i64 + gap + pad),
        Position::Left => (bounds.x as i64 - text.width as i64 - gap - pad, y_center),
        Position::Right => (bounds.x as i64 + bounds.width as i64 + gap + pad, y_center),
        Position::FollowCursor => (cursor_position.x as i64, cursor_position.y as i64 - text.height as i64),
    };
    let width = add_u32(text.width, 2 * padding as u32);
    let height = add_u32(text.height, 2 * padding as u32);
    Rectangle {
        x: confine_axis(offset_x - pad, width, viewport.x, viewport.width),
        y: confine_axis(offset_y - pad, height, viewport.y, viewport.height),
        width,
        height,
    }
}

/// An element to display a widget over another.
pub struct Tooltip<Message> {
    /// The widget that the tooltip belongs to.
    pub content: Element<Message>,
    /// The text of the tooltip.
    pub tooltip: Text,
    /// Where the tooltip appears.
    pub position: Position,
    /// The look of the box around the text.
    pub style_sheet: Style,
    /// The space between the widget and the tooltip.
    pub gap: u16,
    /// The space between the text and the edge of the tooltip.
    pub padding: u16,
}

impl<Message> Tooltip<Message> {
    /// The padding of a tooltip that asks for none.
    pub const DEFAULT_PADDING: u16 = 5;

    /// Creates a tooltip with the text `tooltip` for the widget `content`.
    pub fn new(content: Element<Message>, tooltip: &str, position: Position) -> (t: Tooltip<Message>)
        ensures
            t.content == content,
            t.tooltip.content@ == tooltip@,
            t.tooltip.size is None,
            t.tooltip.color is None,
            t.tooltip.font == Font::Default,
            t.tooltip.width == Length::Shrink,
            t.tooltip.height == Length::Shrink,
            t.tooltip.horizontal_alignment == alignment::Horizontal::Left,
            t.tooltip.vertical_alignment == alignment::Vertical::Top,
            t.position == position,
            t.style_sheet == Style::default_spec(),
            t.gap == 0,
            t.padding == 5,
    {
        Tooltip {
            content,
            tooltip: Text::new(tooltip),
            position,
            style_sheet: Style::default(),
            gap: 0,
            padding: Self::DEFAULT_PADDING,
        }
    }

    /// Lays the widget out: the tooltip takes no space of its own, so the
    /// layout is that of the content.
    pub fn layout<R: backend::Text>(&self, renderer: &R, limits: &Limits) -> (node: Node)
        ensures
            node@ == self.content.item().layout(renderer, *limits),
        decreases self.content.item(), 3nat, 2 * self.content.wraps() + 1,
    {
        self.content.layout(renderer, limits)
    }

    /// Hands `event` to the content: the tooltip itself reacts to nothing.
    pub fn on_event(
        &self,
        event: Event,
        layout: Layout<'_>,
        cursor_position: Point,
        messages: &mut Vec<Message>,
    ) -> (status: Status) where Message: Clone
        ensures
            status == status_of(self.content.emitted(event, layout, cursor_position)),
            delivered(old(messages)@, final(messages)@, self.content.emitted(event, layout, cursor_position)),
        decreases self,
    {
        self.content.on_event(event, layout, cursor_position, messages)
    }

    /// The limits within which the text of the tooltip is laid out: up to the
    /// size of the viewport, less the padding of the tooltip.
    pub open spec fn text_limits(&self, viewport: Rectangle) -> Limits {
        Limits::new_spec(
            Size { width: 0, height: 0 },
            Size { width: viewport.width, height: viewport.height },
        ).pad_spec(Padding { top: self.padding, right: self.padding, bottom: self.padding, left: self.padding })
    }

    /// The bounds of the box of the tooltip when the widget is laid out as
    /// `layout`: see [`overlay_bounds`].
    pub open spec fn overlay<R: backend::Text>(
        &self,
        renderer: &R,
        layout: Layout<'_>,
        cursor_position: Point,
        viewport: Rectangle,
    ) -> Rectangle {
        overlay_bounds(
            self.position,
            layout.bounds_spec(),
            self.tooltip.item().layout(renderer, self.text_limits(viewport)).size(),
            self.gap,
            self.padding,
            cursor_position,
            viewport,
        )
    }

    /// The primitive of the tooltip itself: its text, one padding inside the
    /// box of the tooltip, in the text color of the style or else in the
    /// inherited one.
    pub open spec fn overlay_scene<R: backend::Text>(
        &self,
        renderer: &R,
        defaults: Defaults,
        layout: Layout<'_>,
        cursor_position: Point,
        viewport: Rectangle,
    ) -> Scene {
        let frame = self.overlay(renderer, layout, cursor_position, viewport);
        let size = self.tooltip.item().layout(renderer, self.text_limits(viewport)).size();
        self.tooltip.scene_within(
            renderer.default_size_spec(),
            Defaults {
                text: renderer::Text {
                    color: match self.style_sheet.text_color {
                        Some(color) => color,
                        None => defaults.text.color,
                    },
                },
            },
            Rectangle {
                x: clamp_i32(clamp_i32(frame.x + self.padding) as int),
                y: clamp_i32(clamp_i32(frame.y + self.padding) as int),
                width: size.width,
                height: size.height,
            },
        )
    }

    /// Whether the cursor is over the widget, so that the tooltip shows.
    pub open spec fn is_shown(&self, layout: Layout<'_>, cursor_position: Point) -> bool {
        layout.bounds_spec().contains_spec(cursor_position)
    }

    /// The primitive of the widget and its tooltip, given the primitive
    /// `content` of the widget: the content alone while the cursor is
    /// elsewhere, and else the content with the tooltip after it, clipped to
    /// the viewport.
    pub open spec fn scene_over<R: backend::Text>(
        &self,
        content: Scene,
        renderer: &R,
        defaults: Defaults,
        layout: Layout<'_>,
        cursor_position: Point,
        viewport: Rectangle,
    ) -> Scene {
        if self.is_shown(layout, cursor_position) {
            Scene::Group {
                primitives: seq![
                    content,
                    Scene::Clip {
                        bounds: viewport,
                        offset: Offset { x: 0, y: 0 },
                        content: Box::new(self.overlay_scene(renderer, defaults, layout, cursor_position, viewport)),
                    },
                ],
            }
        } else {
            content
        }
    }

    /// The layers that drawing the tooltip itself begins: one, clipped to the
    /// viewport, while the cursor is over the widget.
    pub open spec fn own_layers(&self, layout: Layout<'_>, cursor_position: Point, viewport: Rectangle) -> Seq<
        Rectangle,
    > {
        if self.is_shown(layout, cursor_position) {
            seq![viewport]
        } else {
            Seq::empty()
        }
    }

    /// Draws the widget, and its tooltip while the cursor is over the widget.
    ///
    /// The text of the tooltip is laid out within the viewport less the
    /// padding. Its box is centered against the widget, put at the side that
    /// the position names, and shifted as little as it takes to lie inside
    /// the viewport. The tooltip is drawn inside a layer of its own, clipped
    /// to the viewport; the layer is begun and ended before the content is
    /// drawn. The content inherits the defaults unchanged.
    pub fn draw<R: Renderer, B: PrimitiveBackend>(
        &self,
        renderer: &mut R,
        defaults: &Defaults,
        layout: Layout<'_>,
        cursor_position: Point,
        viewport: &Rectangle,
    ) -> (primitive: Primitive<B>)
        requires
            self.content.fits(layout.node@.children),
        ensures
            primitive@ == self.scene_over(
                self.content.scene(old(renderer), *defaults, layout, cursor_position, *viewport),
                old(renderer),
                *defaults,
                layout,
                cursor_position,
                *viewport,
            ),
            drawn(
                old(renderer),
                final(renderer),
                self.own_layers(layout, cursor_position, *viewport) + self.content.overlays(
                    layout,
                    cursor_position,
                    *viewport,
                ),
            ),
        decreases self,
    {
        let bounds = layout.bounds();
        let mut overlay: Option<Primitive<B>> = None;
        if bounds.contains(cursor_position) {
            let style = self.style_sheet;
            let text_defaults = Defaults {
                text: renderer::Text {
                    color: match style.text_color {
                        Some(color) => color,
                        None => defaults.text.color,
                    },
                },
            };
            let text_layout = self.tooltip.layout(
                &*renderer,
                &Limits::new(Size::zero(), viewport.size()).pad(Padding::new(self.padding)),
            );
            let text_bounds = text_layout.bounds();
            let tooltip_bounds = place_overlay(
                self.position,
                bounds,
                text_bounds.size(),
                self.gap,
                self.padding,
                cursor_position,
                *viewport,
            );
            renderer.begin_layer(*viewport);
            let text: Primitive<B> = self.tooltip.draw(
                renderer,
                &text_defaults,
                Layout::with_offset(
                    Vector::new(
                        to_i32(tooltip_bounds.x as i64 + self.padding as i64),
                        to_i32(tooltip_bounds.y as i64 + self.padding as i64),
                    ),
                    &text_layout,
                ),
                cursor_position,
                viewport,
            );
            renderer.end_layer();
            assert(text@ == self.overlay_scene(old(renderer), *defaults, layout, cursor_position, *viewport));
            overlay = Some(
                Primitive::Clip { bounds: *viewport, offset: Offset::new(0, 0), content: Box::new(text) },
            );
            assert(renderer.layers() =~= old(renderer).layers() + seq![*viewport]);
        } else {
            assert(renderer.layers() =~= old(renderer).layers() + Seq::<Rectangle>::empty());
        }
        let ghost before = *renderer;
        let content: Primitive<B> = self.content.draw(renderer, defaults, layout, cursor_position, viewport);
        proof {
            lemma_scene_same_text(
                self.content,
                old(renderer),
                &before,
                *defaults,
                layout,
                cursor_position,
                *viewport,
            );
            assert(renderer.layers() =~= old(renderer).layers() + (self.own_layers(
                layout,
                cursor_position,
                *viewport,
            ) + self.content.overlays(layout, cursor_position, *viewport)));
        }
        match overlay {
            Some(tooltip) => {
                let mut parts: Vec<Primitive<B>> = Vec::new();
                parts.push(content);
                parts.push(tooltip);
                let primitive = group(parts);
                assert(primitive@->primitives =~= seq![content@, tooltip@]);
                primitive
            },
            None => content,
        }
    }

    /// Writes what decides the layout of the widget to the structural hash:
    /// the kind of the tooltip, and what the content writes.
    pub fn hash_layout(&self, state: &mut Hasher)
        ensures
            final(state).state == absorb(old(state).state, seq![5u8] + self.content.fingerprint()),
        decreases self,
    {
        let ghost start = state.state;
        state.write_u8(5);
        self.content.hash_layout(state);
        proof {
            lemma_absorb_twice(start, seq![5u8], self.content.fingerprint());
        }
    }

    /// Sets the size of the text of the tooltip.
    pub fn size(self, size: u16) -> (t: Tooltip<Message>)
        ensures
            t.tooltip == (Text { size: Some(size), ..self.tooltip }),
            t.content == self.content,
            t.position == self.position,
            t.style_sheet == self.style_sheet,
            t.gap == self.gap,
            t.padding == self.padding,
    {
        let Tooltip { content, tooltip, position, style_sheet, gap, padding } = self;
        Tooltip { content, tooltip: tooltip.size(size), position, style_sheet, gap, padding }
    }

    /// Sets the font of the tooltip.
    pub fn font(self, font: Font) -> (t: Tooltip<Message>)
        ensures
            t.tooltip == (Text { font, ..self.tooltip }),
            t.content == self.content,
            t.position == self.position,
            t.style_sheet == self.style_sheet,
            t.gap == self.gap,
            t.padding == self.padding,
    {
        let Tooltip { content, tooltip, position, style_sheet, gap, padding } = self;
        Tooltip { content, tooltip: tooltip.font(font), position, style_sheet, gap, padding }
    }

    /// Sets the gap between the content and its tooltip.
    pub fn gap(self, gap: u16) -> (t: Tooltip<Message>)
        ensures
            t == (Tooltip { gap, ..self }),
    {
        let mut t = self;
        t.gap = gap;
        t
    }

    /// Sets the padding of the tooltip.
    pub fn padding(self, padding: u16) -> (t: Tooltip<Message>)
        ensures
            t == (Tooltip { padding, ..self }),
    {
        let mut t = self;
        t.padding = padding;
        t
    }

    /// Sets the style of the tooltip.
    pub fn style(self, style_sheet: Style) -> (t: Tooltip<Message>)
        ensures
            t == (Tooltip { style_sheet, ..self }),
    {
        let mut t = self;
        t.style_sheet = style_sheet;
        t
    }
}

} // verus!
