//! What of a widget tree decides its layout.
use vstd::prelude::*;

use crate::alignment::Alignment;
use crate::backend;
use crate::font::Font;
use crate::layout::flex::{Axis, Flex};
use crate::layout::limits::Limits;
use crate::layout::node::Tree;
use crate::length::Length;
use crate::padding::Padding;
use crate::rectangle::Rectangle;
use crate::size::Size;
use crate::units::max_int;

verus! {

/// The mathematical model of a widget as far as layout goes: a paragraph of
/// text, an empty box, or a row or column of further items.
pub enum Item {
    /// A paragraph of text.
    Text {
        /// The characters of the paragraph.
        content: Seq<char>,
        /// The size of the text, where it is not the default of the backend.
        size: Option<u16>,
        /// The font of the text.
        font: Font,
        /// The width policy.
        width: Length,
        /// The height policy.
        height: Length,
    },
    /// A box without content.
    Blank {
        /// The width policy.
        width: Length,
        /// The height policy.
        height: Length,
    },
    /// A row or a column.
    Flex {
        /// The axis along which the children follow each other.
        axis: Axis,
        /// The space between two children that follow each other.
        spacing: u16,
        /// The space around the children.
        padding: Padding,
        /// The width policy.
        width: Length,
        /// The height policy.
        height: Length,
        /// The largest width that the container takes.
        max_width: u32,
        /// The largest height that the container takes.
        max_height: u32,
        /// How the children are placed across the axis.
        align_items: Alignment,
        /// The children, first to last.
        children: Seq<Item>,
    },
}

/// The node of a widget without children that takes `size`.
pub open spec fn leaf(size: Size) -> Tree {
    Tree { bounds: Rectangle { x: 0, y: 0, width: size.width, height: size.height }, children: Seq::empty() }
}

/// The width policies of `items`, in order.
pub open spec fn widths(items: Seq<Item>) -> Seq<Length> {
    Seq::new(items.len(), |i: int| items[i].width())
}

/// The height policies of `items`, in order.
pub open spec fn heights(items: Seq<Item>) -> Seq<Length> {
    Seq::new(items.len(), |i: int| items[i].height())
}

/// The function that lays out the `i`-th of `children` within given limits.
pub open spec fn lay_children<R: backend::Text>(children: Seq<Item>, renderer: &R) -> spec_fn(int, Limits) -> Tree
    decreases children, 0nat,
{
    |i: int, limits: Limits|
        if 0 <= i < children.len() {
            children[i].layout(renderer, limits)
        } else {
            arbitrary()
        }
}

/// The flex problem of a container with the given settings and children,
/// within `limits` that its own sizing policy has narrowed already.
pub open spec fn problem<R: backend::Text>(
    axis: Axis,
    limits: Limits,
    padding: Padding,
    spacing: u16,
    align_items: Alignment,
    children: Seq<Item>,
    renderer: &R,
) -> Flex
    decreases children, 1nat,
{
    Flex {
        axis,
        limits,
        padding,
        spacing,
        align_items,
        widths: widths(children),
        heights: heights(children),
        lay: lay_children(children, renderer),
    }
}

impl Item {
    /// The width policy of the item.
    pub open spec fn width(self) -> Length {
        match self {
            Item::Text { width, .. } => width,
            Item::Blank { width, .. } => width,
            Item::Flex { width, .. } => width,
        }
    }

    /// The height policy of the item.
    pub open spec fn height(self) -> Length {
        match self {
            Item::Text { height, .. } => height,
            Item::Blank { height, .. } => height,
            Item::Flex { height, .. } => height,
        }
    }

    /// The limits of a container once its own sizing policy has narrowed
    /// those that its parent offers.
    pub open spec fn narrowed(limits: Limits, width: Length, height: Length, max_width: u32, max_height: u32) -> Limits {
        limits.max_width_spec(max_width).max_height_spec(max_height).width_spec(width).height_spec(height)
    }

    /// The positioned tree of the item when its parent offers `limits` and
    /// text is measured by `renderer`.
    pub open spec fn layout<R: backend::Text>(self, renderer: &R, limits: Limits) -> Tree
        decreases self, 1nat,
    {
        match self {
            Item::Text { content, size, font, width, height } => {
                let limits = limits.width_spec(width).height_spec(height);
                let size = match size {
                    Some(size) => size,
                    None => renderer.default_size_spec(),
                };
                let measured = renderer.measure_spec(content, size, font, limits.max);
                leaf(limits.resolve_spec(Size { width: measured.0, height: measured.1 }))
            },
            Item::Blank { width, height } => {
                let limits = limits.width_spec(width).height_spec(height);
                leaf(limits.resolve_spec(Size { width: 0, height: 0 }))
            },
            Item::Flex {
                axis,
                spacing,
                padding,
                width,
                height,
                max_width,
                max_height,
                align_items,
                children,
            } => {
                let limits = Item::narrowed(limits, width, height, max_width, max_height);
                problem(axis, limits, padding, spacing, align_items, children, renderer).tree()
            },
        }
    }
}

/// An item that fills its width takes all the width it is given: within
/// limits whose smallest and largest width agree, and whose floor is no lower,
/// its node is exactly that wide. A container must have room for its own
/// padding.
pub proof fn lemma_fill_takes_width<R: backend::Text>(item: Item, renderer: &R, limits: Limits)
    requires
        item.width().fill_factor_spec() != 0,
        limits.min.width == limits.max.width,
        limits.fill.width >= limits.max.width,
        item matches Item::Flex { padding, .. } ==> padding.horizontal_spec() <= limits.max.width,
    ensures
        item.layout(renderer, limits).bounds.width == limits.max.width,
{
}

/// An item that fills its height takes all the height it is given: within
/// limits whose smallest and largest height agree, and whose floor is no
/// lower, its node is exactly that high. A container must have room for its
/// own padding.
pub proof fn lemma_fill_takes_height<R: backend::Text>(item: Item, renderer: &R, limits: Limits)
    requires
        item.height().fill_factor_spec() != 0,
        limits.min.height == limits.max.height,
        limits.fill.height >= limits.max.height,
        item matches Item::Flex { padding, .. } ==> padding.vertical_spec() <= limits.max.height,
    ensures
        item.layout(renderer, limits).bounds.height == limits.max.height,
{
}

/// The space that the padding of `item` takes along `axis`; zero for an item
/// that is no container.
pub open spec fn padding_along(item: Item, axis: Axis) -> int {
    match item {
        Item::Flex { padding, .. } => match axis {
            Axis::Horizontal => padding.horizontal_spec(),
            Axis::Vertical => padding.vertical_spec(),
        },
        _ => 0,
    }
}

/// In a row or a column, a child that fills the main axis is exactly as long
/// as its share of the space that the other children left, provided that the
/// share has room for the child's own padding.
pub proof fn lemma_fill_child_gets_share<R: backend::Text>(
    axis: Axis,
    limits: Limits,
    padding: Padding,
    spacing: u16,
    align_items: Alignment,
    children: Seq<Item>,
    renderer: &R,
    i: int,
)
    requires
        0 <= i < children.len(),
        problem(axis, limits, padding, spacing, align_items, children, renderer).main_factor(i) != 0,
        padding_along(children[i], axis) <= problem(
            axis,
            limits,
            padding,
            spacing,
            align_items,
            children,
            renderer,
        ).share(i),
    ensures
        axis.main_spec(
            problem(axis, limits, padding, spacing, align_items, children, renderer).tree().children[i].size(),
        ) == problem(axis, limits, padding, spacing, align_items, children, renderer).share(i),
{
    let flex = problem(axis, limits, padding, spacing, align_items, children, renderer);
    flex.lemma_share_bounds(i);
    let share = flex.share(i) as u32;
    let given = flex.fill_limits(share);
    assert(flex.sized(i) == children[i].layout(renderer, given));
    match axis {
        Axis::Horizontal => {
            lemma_fill_takes_width(children[i], renderer, given);
        },
        Axis::Vertical => {
            lemma_fill_takes_height(children[i], renderer, given);
        },
    }
    assert(flex.tree().children[i] == flex.placed(i));
}

/// The extent along the axis that the children among the first `k` that fill
/// the axis take together.
pub open spec fn filled(flex: Flex, k: nat) -> int
    decreases k,
{
    if k == 0 {
        0
    } else if flex.main_factor(k - 1) != 0 {
        filled(flex, (k - 1) as nat) + flex.axis.main_spec(flex.tree().children[k - 1].size())
    } else {
        filled(flex, (k - 1) as nat)
    }
}

/// In a row or a column in which a child fills the main axis, the children
/// that fill it take together exactly the space that the other children and
/// the gaps left, provided that each share has room for the padding of its
/// child.
pub proof fn lemma_fill_children_use_all_space<R: backend::Text>(
    axis: Axis,
    limits: Limits,
    padding: Padding,
    spacing: u16,
    align_items: Alignment,
    children: Seq<Item>,
    renderer: &R,
)
    requires
        problem(axis, limits, padding, spacing, align_items, children, renderer).total_weight() > 0,
        forall|i: int|
            0 <= i < children.len() && problem(
                axis,
                limits,
                padding,
                spacing,
                align_items,
                children,
                renderer,
            ).main_factor(i) != 0 ==> padding_along(#[trigger] children[i], axis) <= problem(
                axis,
                limits,
                padding,
                spacing,
                align_items,
                children,
                renderer,
            ).share(i),
    ensures
        filled(
            problem(axis, limits, padding, spacing, align_items, children, renderer),
            children.len(),
        ) == problem(axis, limits, padding, spacing, align_items, children, renderer).remaining(),
{
    let flex = problem(axis, limits, padding, spacing, align_items, children, renderer);
    lemma_filled_is_share_sum(axis, limits, padding, spacing, align_items, children, renderer, children.len());
    flex.lemma_shares_use_all_space();
}

/// The children among the first `k` that fill the main axis take together
/// the sum of the shares of the first `k` children, provided that each share
/// has room for the padding of its child.
proof fn lemma_filled_is_share_sum<R: backend::Text>(
    axis: Axis,
    limits: Limits,
    padding: Padding,
    spacing: u16,
    align_items: Alignment,
    children: Seq<Item>,
    renderer: &R,
    k: nat,
)
    requires
        k <= children.len(),
        problem(axis, limits, padding, spacing, align_items, children, renderer).total_weight() > 0,
        forall|i: int|
            0 <= i < children.len() && problem(
                axis,
                limits,
                padding,
                spacing,
                align_items,
                children,
                renderer,
            ).main_factor(i) != 0 ==> padding_along(#[trigger] children[i], axis) <= problem(
                axis,
                limits,
                padding,
                spacing,
                align_items,
                children,
                renderer,
            ).share(i),
    ensures
        filled(problem(axis, limits, padding, spacing, align_items, children, renderer), k) == problem(
            axis,
            limits,
            padding,
            spacing,
            align_items,
            children,
            renderer,
        ).share_sum(k),
    decreases k,
{
    let flex = problem(axis, limits, padding, spacing, align_items, children, renderer);
    if k > 0 {
        lemma_filled_is_share_sum(axis, limits, padding, spacing, align_items, children, renderer, (k - 1) as nat);
        if flex.main_factor(k - 1) != 0 {
            assert(padding_along(children[k - 1], axis) <= flex.share(k - 1));
            lemma_fill_child_gets_share(axis, limits, padding, spacing, align_items, children, renderer, k - 1);
        } else {
            flex.lemma_share_is_proportional(k - 1);
        }
    }
}

/// A container without children and without padding takes the smallest size
/// that its sizing policy implies: it has no children, along its axis it is as
/// long as the floor of its narrowed limits, and on an axis on which it
/// shrinks it is as small as the limits allow, which is zero where they have
/// no minimum.
pub proof fn lemma_empty_container<R: backend::Text>(
    axis: Axis,
    spacing: u16,
    width: Length,
    height: Length,
    max_width: u32,
    max_height: u32,
    align_items: Alignment,
    renderer: &R,
    limits: Limits,
)
    ensures
        ({
            let item = Item::Flex {
                axis,
                spacing,
                padding: Padding { top: 0, right: 0, bottom: 0, left: 0 },
                width,
                height,
                max_width,
                max_height,
                align_items,
                children: Seq::empty(),
            };
            let tree = item.layout(renderer, limits);
            let narrowed = Item::narrowed(limits, width, height, max_width, max_height);
            &&& tree.children.len() == 0
            &&& tree.bounds.x == 0 && tree.bounds.y == 0
            &&& axis.main_spec(tree.size()) == axis.main_spec(narrowed.fill)
            &&& width == Length::Shrink ==> tree.bounds.width == limits.min.width
            &&& height == Length::Shrink ==> tree.bounds.height == limits.min.height
        }),
{
    let item = Item::Flex {
        axis,
        spacing,
        padding: Padding { top: 0, right: 0, bottom: 0, left: 0 },
        width,
        height,
        max_width,
        max_height,
        align_items,
        children: Seq::empty(),
    };
    let narrowed = Item::narrowed(limits, width, height, max_width, max_height);
    let flex = problem(
        axis,
        narrowed,
        Padding { top: 0, right: 0, bottom: 0, left: 0 },
        spacing,
        align_items,
        Seq::empty(),
        renderer,
    );
    assert(flex.count() == 0);
    assert(flex.padded() == narrowed);
    assert(spacing * max_int(0 - 1, 0) == 0) by (nonlinear_arith);
    assert(flex.total_spacing() == 0);
    assert(flex.stretch_cross(0) == axis.cross_spec(narrowed.min));
    assert(flex.cross_upto(0) == flex.start_cross());
}

} // verus!
