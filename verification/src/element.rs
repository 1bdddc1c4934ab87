//! A widget of any kind.
use vstd::prelude::*;

use crate::alignment::Alignment;
use crate::backend;
use crate::event::{delivered, lemma_delivered_twice, status_of, Event, Status};
use crate::hasher::{absorb, lemma_absorb_twice, Hasher};
use crate::layout::Layout;
use crate::layout::flex::Axis;
use crate::layout::item::{problem, Item};
use crate::layout::limits::Limits;
use crate::layout::node::Node;
use crate::layout::node::Tree;
use crate::length::Length;
use crate::padding::Padding;
use crate::point::Point;
use crate::primitive::{scenes, Primitive, PrimitiveBackend, Scene};
use crate::rectangle::Rectangle;
use crate::renderer::{drawn, same_text, Defaults, Renderer};
use crate::widget::column::Column;
use crate::widget::radio::Radio;
use crate::widget::row::Row;
use crate::widget::rule::Rule;
use crate::widget::text::Text;
use crate::widget::toggler::Toggler;
use crate::widget::tooltip::Tooltip;

verus! {

broadcast use vstd::std_specs::vec::group_vec_axioms;

/// A widget of any of the kinds that the library knows. A container owns its
/// children; the widgets of a user interface form a tree.
pub enum Element<Message> {
    /// A paragraph of text.
    Text(Text),
    /// A dividing line.
    Rule(Rule),
    /// A radio button.
    Radio(Radio<Message>),
    /// A toggler.
    Toggler(Toggler<Message>),
    /// A widget with a tooltip over it.
    Tooltip(Box<Tooltip<Message>>),
    /// A row of widgets.
    Row(Row<Message>),
    /// A column of widgets.
    Column(Column<Message>),
}

/// What of each of `elements` decides its layout, in order.
pub open spec fn items<Message>(elements: Seq<Element<Message>>) -> Seq<Item>
    decreases elements,
{
    Seq::new(
        elements.len(),
        |i: int|
            if 0 <= i < elements.len() {
                elements[i].item()
            } else {
                arbitrary()
            },
    )
}

/// The messages that the first `k` of `children` emit for `event`, each child
/// laid out as the child of `layout` with its index; a child without a layout
/// emits none.
pub open spec fn emitted_children<Message>(
    children: Seq<Element<Message>>,
    event: Event,
    layout: Layout<'_>,
    cursor_position: Point,
    k: nat,
) -> Seq<Message>
    decreases children, k,
{
    if k == 0 {
        Seq::empty()
    } else {
        let before = emitted_children(children, event, layout, cursor_position, (k - 1) as nat);
        if k - 1 < children.len() && k - 1 < layout.len() {
            before + children[k - 1].emitted(event, layout.child_spec(k - 1), cursor_position)
        } else {
            before
        }
    }
}

/// The number of children that have a layout: the smaller of the number of
/// children and the number of nodes.
pub open spec fn paired(children: nat, layout: Layout<'_>) -> nat {
    if children <= layout.len() {
        children
    } else {
        layout.len()
    }
}

/// Hands `event` to each of `children` that has a layout, first to last. Each
/// child appends its messages to the queue; the event is captured where any
/// child captured it.
pub fn on_event_children<Message: Clone>(
    children: &Vec<Element<Message>>,
    event: Event,
    layout: Layout<'_>,
    cursor_position: Point,
    messages: &mut Vec<Message>,
) -> (status: Status)
    ensures
        status == status_of(
            emitted_children(children@, event, layout, cursor_position, paired(children@.len(), layout)),
        ),
        delivered(
            old(messages)@,
            final(messages)@,
            emitted_children(children@, event, layout, cursor_position, paired(children@.len(), layout)),
        ),
    decreases children,
{
    let count = if children.len() <= layout.child_count() {
        children.len()
    } else {
        layout.child_count()
    };
    let mut status = Status::Ignored;
    let mut i: usize = 0;
    assert(messages@.subrange(0, messages@.len() as int) =~= messages@);
    while i < count
        invariant
            i <= count,
            count == paired(children@.len(), layout),
            status == status_of(emitted_children(children@, event, layout, cursor_position, i as nat)),
            delivered(
                old(messages)@,
                messages@,
                emitted_children(children@, event, layout, cursor_position, i as nat),
            ),
        decreases count - i,
    {
        let ghost between = messages@;
        let ghost first = emitted_children(children@, event, layout, cursor_position, i as nat);
        let child_status = children[i].on_event(event, layout.child(i), cursor_position, messages);
        proof {
            lemma_delivered_twice(
                old(messages)@,
                between,
                messages@,
                first,
                children@[i as int].emitted(event, layout.child_spec(i as int), cursor_position),
            );
        }
        status = status.merge(child_status);
        i += 1;
    }
    status
}

/// The bytes that the first `k` of `children` contribute to the structural
/// hash, in order.
pub open spec fn fingerprints<Message>(children: Seq<Element<Message>>, k: nat) -> Seq<u8>
    decreases children, k,
{
    if k == 0 {
        Seq::empty()
    } else if k - 1 < children.len() {
        fingerprints(children, (k - 1) as nat) + children[k - 1].fingerprint()
    } else {
        fingerprints(children, (k - 1) as nat)
    }
}

/// Writes what decides the layout of each of `children` to the structural
/// hash, first to last.
pub fn hash_children<Message>(children: &Vec<Element<Message>>, state: &mut Hasher)
    ensures
        final(state).state == absorb(old(state).state, fingerprints(children@, children@.len())),
    decreases children,
{
    let mut i: usize = 0;
    while i < children.len()
        invariant
            i <= children@.len(),
            state.state == absorb(old(state).state, fingerprints(children@, i as nat)),
        decreases children@.len() - i,
    {
        children[i].hash_layout(state);
        proof {
            lemma_absorb_twice(
                old(state).state,
                fingerprints(children@, i as nat),
                children@[i as int].fingerprint(),
            );
        }
        i += 1;
    }
}

/// The primitives of those of `children` that have a node in `layout`, first
/// to last.
pub open spec fn scenes_children<Message, R: backend::Text>(
    children: Seq<Element<Message>>,
    renderer: &R,
    defaults: Defaults,
    layout: Layout<'_>,
    cursor_position: Point,
    viewport: Rectangle,
) -> Seq<Scene>
    decreases children, 0nat,
{
    Seq::new(
        paired(children.len(), layout),
        |i: int|
            if 0 <= i < children.len() {
                children[i].scene(renderer, defaults, layout.child_spec(i), cursor_position, viewport)
            } else {
                arbitrary()
            },
    )
}

/// The layers that drawing the first `k` of `children` begins, in order.
pub open spec fn overlays_children<Message>(
    children: Seq<Element<Message>>,
    layout: Layout<'_>,
    cursor_position: Point,
    viewport: Rectangle,
    k: nat,
) -> Seq<Rectangle>
    decreases children, k,
{
    if k == 0 {
        Seq::empty()
    } else {
        let before = overlays_children(children, layout, cursor_position, viewport, (k - 1) as nat);
        if k - 1 < children.len() && k - 1 < layout.len() {
            before + children[k - 1].overlays(layout.child_spec(k - 1), cursor_position, viewport)
        } else {
            before
        }
    }
}

/// Whether each of `children` that has a node among `nodes` can be drawn with
/// it.
pub open spec fn fit_children<Message>(children: Seq<Element<Message>>, nodes: Seq<Tree>) -> bool
    decreases children, 0nat,
{
    forall|i: int|
        0 <= i < children.len() && i < nodes.len() ==> (#[trigger] children[i]).fits(nodes[i].children)
}

/// Two renderers that measure text alike give every widget the same
/// primitive.
pub proof fn lemma_scene_same_text<Message, R: backend::Text>(
    element: Element<Message>,
    first: &R,
    second: &R,
    defaults: Defaults,
    layout: Layout<'_>,
    cursor_position: Point,
    viewport: Rectangle,
)
    requires
        same_text(first, second),
    ensures
        element.scene(first, defaults, layout, cursor_position, viewport) == element.scene(
            second,
            defaults,
            layout,
            cursor_position,
            viewport,
        ),
    decreases element,
{
    match element {
        Element::Tooltip(tooltip) => {
            lemma_scene_same_text(tooltip.content, first, second, defaults, layout, cursor_position, viewport);
        },
        Element::Row(row) => {
            lemma_scenes_same_text(row.children@, first, second, defaults, layout, cursor_position, viewport);
        },
        Element::Column(column) => {
            lemma_scenes_same_text(column.children@, first, second, defaults, layout, cursor_position, viewport);
        },
        _ => {},
    }
}

/// Two renderers that measure text alike give the children of a container
/// the same primitives.
pub proof fn lemma_scenes_same_text<Message, R: backend::Text>(
    children: Seq<Element<Message>>,
    first: &R,
    second: &R,
    defaults: Defaults,
    layout: Layout<'_>,
    cursor_position: Point,
    viewport: Rectangle,
)
    requires
        same_text(first, second),
    ensures
        scenes_children(children, first, defaults, layout, cursor_position, viewport) == scenes_children(
            children,
            second,
            defaults,
            layout,
            cursor_position,
            viewport,
        ),
    decreases children,
{
    let a = scenes_children(children, first, defaults, layout, cursor_position, viewport);
    let b = scenes_children(children, second, defaults, layout, cursor_position, viewport);
    assert forall|i: int| 0 <= i < a.len() implies a[i] == b[i] by {
        lemma_scene_same_text(children[i], first, second, defaults, layout.child_spec(i), cursor_position, viewport);
    }
    assert(a =~= b);
}

/// The node that laying a widget out gives can always be drawn with: it has a
/// node for every part of the widget, at every depth.
pub proof fn lemma_layout_fits<Message, R: backend::Text>(element: Element<Message>, renderer: &R, limits: Limits)
    ensures
        element.fits(element.item().layout(renderer, limits).children),
    decreases element, 1nat,
{
    match element {
        Element::Tooltip(tooltip) => {
            lemma_layout_fits(tooltip.content, renderer, limits);
        },
        Element::Row(row) => {
            let narrowed = Item::narrowed(limits, row.width, row.height, row.max_width, row.max_height);
            lemma_layouts_fit(
                row.children@,
                Axis::Horizontal,
                narrowed,
                row.padding,
                row.spacing,
                row.align_items,
                renderer,
            );
        },
        Element::Column(column) => {
            let narrowed = Item::narrowed(
                limits,
                column.width,
                column.height,
                column.max_width,
                column.max_height,
            );
            lemma_layouts_fit(
                column.children@,
                Axis::Vertical,
                narrowed,
                column.padding,
                column.spacing,
                column.align_items,
                renderer,
            );
        },
        _ => {},
    }
}

/// The nodes that a row or a column gives its children can always be drawn
/// with.
pub proof fn lemma_layouts_fit<Message, R: backend::Text>(
    children: Seq<Element<Message>>,
    axis: Axis,
    limits: Limits,
    padding: Padding,
    spacing: u16,
    align_items: Alignment,
    renderer: &R,
)
    ensures
        fit_children(
            children,
            problem(
                axis,
                limits,
                padding,
                spacing,
                align_items,
                items(children),
                renderer,
            ).tree().children,
        ),
    decreases children, 0nat,
{
    let flex = problem(axis, limits, padding, spacing, align_items, items(children), renderer);
    let nodes = flex.tree().children;
    assert forall|i: int| 0 <= i < children.len() && i < nodes.len() implies (#[trigger] children[i]).fits(
        nodes[i].children,
    ) by {
        let given = if flex.main_factor(i) == 0 {
            flex.fixed_limits(flex.available(i as nat))
        } else {
            flex.fill_limits(flex.share(i) as u32)
        };
        lemma_layout_fits(children[i], renderer, given);
        assert(flex.sized(i) == children[i].item().layout(renderer, given));
        assert(nodes[i] == flex.placed(i));
        assert(nodes[i].children == flex.sized(i).children);
    }
}

/// Draws each of `children` that has a node in `layout`, first to last, and
/// returns their primitives in this order.
pub fn draw_children<Message, R: Renderer, B: PrimitiveBackend>(
    children: &Vec<Element<Message>>,
    renderer: &mut R,
    defaults: &Defaults,
    layout: Layout<'_>,
    cursor_position: Point,
    viewport: &Rectangle,
) -> (primitives: Vec<Primitive<B>>)
    requires
        fit_children(children@, layout.node@.children),
    ensures
        scenes(primitives@) == scenes_children(
            children@,
            old(renderer),
            *defaults,
            layout,
            cursor_position,
            *viewport,
        ),
        drawn(
            old(renderer),
            final(renderer),
            overlays_children(children@, layout, cursor_position, *viewport, paired(children@.len(), layout)),
        ),
    decreases children,
{
    let count = if children.len() <= layout.child_count() {
        children.len()
    } else {
        layout.child_count()
    };
    let mut primitives: Vec<Primitive<B>> = Vec::new();
    let mut i: usize = 0;
    assert(renderer.layers() =~= old(renderer).layers() + Seq::<Rectangle>::empty());
    while i < count
        invariant
            i <= count,
            count == paired(children@.len(), layout),
            fit_children(children@, layout.node@.children),
            primitives@.len() == i,
            forall|j: int|
                0 <= j < i ==> (#[trigger] primitives@[j])@ == children@[j].scene(
                    old(renderer),
                    *defaults,
                    layout.child_spec(j),
                    cursor_position,
                    *viewport,
                ),
            drawn(
                old(renderer),
                renderer,
                overlays_children(children@, layout, cursor_position, *viewport, i as nat),
            ),
        decreases count - i,
    {
        let ghost before = *renderer;
        let ghost begun = overlays_children(children@, layout, cursor_position, *viewport, i as nat);
        assert(children@[i as int].fits(layout.node@.children[i as int].children));
        assert(layout.child_spec(i as int).node@ == layout.node@.children[i as int]);
        let primitive: Primitive<B> = children[i].draw(
            renderer,
            defaults,
            layout.child(i),
            cursor_position,
            viewport,
        );
        proof {
            lemma_scene_same_text(
                children@[i as int],
                old(renderer),
                &before,
                *defaults,
                layout.child_spec(i as int),
                cursor_position,
                *viewport,
            );
            assert(renderer.layers() =~= old(renderer).layers() + (begun + children@[i as int].overlays(
                layout.child_spec(i as int),
                cursor_position,
                *viewport,
            )));
        }
        primitives.push(primitive);
        i += 1;
    }
    assert(scenes(primitives@) =~= scenes_children(
        children@,
        old(renderer),
        *defaults,
        layout,
        cursor_position,
        *viewport,
    ));
    primitives
}

impl<Message> Element<Message> {
    /// The bytes that the widget and all that it contains contribute to the
    /// structural hash: what decides the shape of the layout, in the order of
    /// the tree. What only decides the look, such as colors, is left out.
    pub open spec fn fingerprint(&self) -> Seq<u8>
        decreases self, 0nat,
    {
        match self {
            Element::Text(text) => text.fingerprint(),
            Element::Rule(rule) => rule.fingerprint(),
            Element::Radio(radio) => radio.fingerprint(),
            Element::Toggler(toggler) => toggler.fingerprint(),
            Element::Tooltip(tooltip) => seq![5u8] + tooltip.content.fingerprint(),
            Element::Row(row) => seq![6u8] + row.header() + fingerprints(row.children@, row.children@.len()),
            Element::Column(column) => seq![7u8] + column.header() + fingerprints(
                column.children@,
                column.children@.len(),
            ),
        }
    }

    /// Writes what decides the layout of the widget and of all that it
    /// contains to the structural hash. Two trees that write the same bytes
    /// leave the same hash, so a layout can be reused while the hash stays.
    pub fn hash_layout(&self, state: &mut Hasher)
        ensures
            final(state).state == absorb(old(state).state, self.fingerprint()),
        decreases self,
    {
        match self {
            Element::Text(text) => text.hash_layout(state),
            Element::Rule(rule) => rule.hash_layout(state),
            Element::Radio(radio) => radio.hash_layout(state),
            Element::Toggler(toggler) => toggler.hash_layout(state),
            Element::Tooltip(tooltip) => tooltip.hash_layout(state),
            Element::Row(row) => row.hash_layout(state),
            Element::Column(column) => column.hash_layout(state),
        }
    }

    /// Whether the widget can be drawn with a node whose children are
    /// `nodes`: a widget made of parts needs a node for each part, and the
    /// children of a container that have a node need one that they can be
    /// drawn with in turn. The node that laying the widget out gives always
    /// will do.
    pub open spec fn fits(&self, nodes: Seq<Tree>) -> bool
        decreases self, 1nat,
    {
        match self {
            Element::Text(_) => true,
            Element::Rule(_) => true,
            Element::Radio(_) => nodes.len() >= 2,
            Element::Toggler(toggler) => nodes.len() >= toggler.parts(),
            Element::Tooltip(tooltip) => tooltip.content.fits(nodes),
            Element::Row(row) => fit_children(row.children@, nodes),
            Element::Column(column) => fit_children(column.children@, nodes),
        }
    }

    /// The primitive of the widget when it is laid out as `layout`, the
    /// cursor is at `cursor_position` and `defaults` are inherited: a function
    /// of the widget, the bounds that the layout gave it and the styling. A
    /// container groups the primitives of its children in their order.
    pub open spec fn scene<R: backend::Text>(
        &self,
        renderer: &R,
        defaults: Defaults,
        layout: Layout<'_>,
        cursor_position: Point,
        viewport: Rectangle,
    ) -> Scene
        decreases self, 1nat,
    {
        match self {
            Element::Text(text) => text.scene(renderer.default_size_spec(), defaults, layout),
            Element::Rule(rule) => rule.scene(layout),
            Element::Radio(radio) => radio.scene(renderer.default_size_spec(), defaults, layout, cursor_position),
            Element::Toggler(toggler) => toggler.scene(
                renderer.default_size_spec(),
                defaults,
                layout,
                cursor_position,
            ),
            Element::Tooltip(tooltip) => tooltip.scene_over(
                tooltip.content.scene(renderer, defaults, layout, cursor_position, viewport),
                renderer,
                defaults,
                layout,
                cursor_position,
                viewport,
            ),
            Element::Row(row) => Scene::Group {
                primitives: scenes_children(row.children@, renderer, defaults, layout, cursor_position, viewport),
            },
            Element::Column(column) => Scene::Group {
                primitives: scenes_children(
                    column.children@,
                    renderer,
                    defaults,
                    layout,
                    cursor_position,
                    viewport,
                ),
            },
        }
    }

    /// The clip regions of the layers that drawing the widget begins, in
    /// order: one for each tooltip that shows.
    pub open spec fn overlays(&self, layout: Layout<'_>, cursor_position: Point, viewport: Rectangle) -> Seq<
        Rectangle,
    >
        decreases self, 0nat,
    {
        match self {
            Element::Tooltip(tooltip) => tooltip.own_layers(layout, cursor_position, viewport)
                + tooltip.content.overlays(layout, cursor_position, viewport),
            Element::Row(row) => overlays_children(
                row.children@,
                layout,
                cursor_position,
                viewport,
                paired(row.children@.len(), layout),
            ),
            Element::Column(column) => overlays_children(
                column.children@,
                layout,
                cursor_position,
                viewport,
                paired(column.children@.len(), layout),
            ),
            _ => Seq::empty(),
        }
    }

    /// Draws the widget and all that it contains: produces its primitive from
    /// the widget, the bounds that `layout` holds and the inherited
    /// `defaults`. Every layer that is begun on the way is ended; the layers
    /// begun are those of the tooltips that show, in the order of the tree.
    pub fn draw<R: Renderer, B: PrimitiveBackend>(
        &self,
        renderer: &mut R,
        defaults: &Defaults,
        layout: Layout<'_>,
        cursor_position: Point,
        viewport: &Rectangle,
    ) -> (primitive: Primitive<B>)
        requires
            self.fits(layout.node@.children),
        ensures
            primitive@ == self.scene(old(renderer), *defaults, layout, cursor_position, *viewport),
            drawn(old(renderer), final(renderer), self.overlays(layout, cursor_position, *viewport)),
        decreases self,
    {
        match self {
            Element::Text(text) => text.draw(renderer, defaults, layout, cursor_position, viewport),
            Element::Rule(rule) => rule.draw(renderer, defaults, layout, cursor_position, viewport),
            Element::Radio(radio) => radio.draw(renderer, defaults, layout, cursor_position, viewport),
            Element::Toggler(toggler) => toggler.draw(renderer, defaults, layout, cursor_position, viewport),
            Element::Tooltip(tooltip) => tooltip.draw(renderer, defaults, layout, cursor_position, viewport),
            Element::Row(row) => row.draw(renderer, defaults, layout, cursor_position, viewport),
            Element::Column(column) => column.draw(renderer, defaults, layout, cursor_position, viewport),
        }
    }

    /// The messages that the widget emits for `event` when it is laid out as
    /// `layout` and the cursor is at `cursor_position`, in the order in which
    /// they are queued.
    pub open spec fn emitted(&self, event: Event, layout: Layout<'_>, cursor_position: Point) -> Seq<Message>
        decreases self, 0nat,
    {
        match self {
            Element::Text(_) => Seq::empty(),
            Element::Rule(_) => Seq::empty(),
            Element::Radio(radio) => if radio.is_clicked(event, layout, cursor_position) {
                seq![radio.on_click]
            } else {
                Seq::empty()
            },
            Element::Toggler(toggler) => if toggler.is_toggled(event, layout, cursor_position) {
                seq![toggler.on_toggle]
            } else {
                Seq::empty()
            },
            Element::Tooltip(tooltip) => tooltip.content.emitted(event, layout, cursor_position),
            Element::Row(row) => emitted_children(
                row.children@,
                event,
                layout,
                cursor_position,
                paired(row.children@.len(), layout),
            ),
            Element::Column(column) => emitted_children(
                column.children@,
                event,
                layout,
                cursor_position,
                paired(column.children@.len(), layout),
            ),
        }
    }

    /// Dispatches `event` to the widget and to all that it contains, hit
    /// testing against the positioned tree `layout`. The widgets that react
    /// append their messages to the queue, in the order of the tree; nothing
    /// else changes. The event is captured exactly when a message was
    /// emitted.
    pub fn on_event(
        &self,
        event: Event,
        layout: Layout<'_>,
        cursor_position: Point,
        messages: &mut Vec<Message>,
    ) -> (status: Status) where Message: Clone
        ensures
            status == status_of(self.emitted(event, layout, cursor_position)),
            delivered(old(messages)@, final(messages)@, self.emitted(event, layout, cursor_position)),
        decreases self,
    {
        assert(messages@.subrange(0, messages@.len() as int) =~= messages@);
        match self {
            Element::Text(_) => Status::Ignored,
            Element::Rule(_) => Status::Ignored,
            Element::Radio(radio) => {
                let status = radio.on_event(event, layout, cursor_position, messages);
                assert(messages@.subrange(0, old(messages)@.len() as int) =~= old(messages)@);
                status
            },
            Element::Toggler(toggler) => {
                let status = toggler.on_event(event, layout, cursor_position, messages);
                assert(messages@.subrange(0, old(messages)@.len() as int) =~= old(messages)@);
                status
            },
            Element::Tooltip(tooltip) => tooltip.on_event(event, layout, cursor_position, messages),
            Element::Row(row) => row.on_event(event, layout, cursor_position, messages),
            Element::Column(column) => column.on_event(event, layout, cursor_position, messages),
        }
    }

    /// What of the widget decides its layout.
    pub open spec fn item(&self) -> Item
        decreases self,
    {
        match self {
            Element::Text(text) => text.item(),
            Element::Rule(rule) => rule.item(),
            Element::Radio(radio) => radio.item(),
            Element::Toggler(toggler) => toggler.item(),
            Element::Tooltip(tooltip) => tooltip.content.item(),
            Element::Row(row) => Item::Flex {
                axis: Axis::Horizontal,
                spacing: row.spacing,
                padding: row.padding,
                width: row.width,
                height: row.height,
                max_width: row.max_width,
                max_height: row.max_height,
                align_items: row.align_items,
                children: items(row.children@),
            },
            Element::Column(column) => Item::Flex {
                axis: Axis::Vertical,
                spacing: column.spacing,
                padding: column.padding,
                width: column.width,
                height: column.height,
                max_width: column.max_width,
                max_height: column.max_height,
                align_items: column.align_items,
                children: items(column.children@),
            },
        }
    }

    /// The number of tooltips that are wrapped around the widget.
    pub open spec fn wraps(&self) -> nat
        decreases self,
    {
        match self {
            Element::Tooltip(tooltip) => 1 + tooltip.content.wraps(),
            _ => 0,
        }
    }

    /// Lays the widget out within `limits`: the positioned tree of the widget
    /// and of all that it contains.
    pub fn layout<R: backend::Text>(&self, renderer: &R, limits: &Limits) -> (node: Node)
        ensures
            node@ == self.item().layout(renderer, *limits),
        decreases self.item(), 3nat, 2 * self.wraps(),
    {
        match self {
            Element::Text(text) => text.layout(renderer, limits),
            Element::Rule(rule) => rule.layout(renderer, limits),
            Element::Radio(radio) => radio.layout(renderer, limits),
            Element::Toggler(toggler) => toggler.layout(renderer, limits),
            Element::Tooltip(tooltip) => tooltip.layout(renderer, limits),
            Element::Row(row) => row.layout(renderer, limits),
            Element::Column(column) => column.layout(renderer, limits),
        }
    }

    /// The width policy of the widget.
    pub fn width(&self) -> (width: Length)
        ensures
            width == self.item().width(),
        decreases self,
    {
        match self {
            Element::Text(text) => text.width,
            Element::Rule(rule) => rule.width,
            Element::Radio(radio) => radio.width,
            Element::Toggler(toggler) => toggler.width,
            Element::Tooltip(tooltip) => tooltip.content.width(),
            Element::Row(row) => row.width,
            Element::Column(column) => column.width,
        }
    }

    /// The height policy of the widget.
    pub fn height(&self) -> (height: Length)
        ensures
            height == self.item().height(),
        decreases self,
    {
        match self {
            Element::Text(text) => text.height,
            Element::Rule(rule) => rule.height,
            Element::Radio(_) => Length::Shrink,
            Element::Toggler(_) => Length::Shrink,
            Element::Tooltip(tooltip) => tooltip.content.height(),
            Element::Row(row) => row.height,
            Element::Column(column) => column.height,
        }
    }
}

} // verus!
