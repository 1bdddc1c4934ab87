//! Distribution of space to the children of a row or a column.
//!
//! The children that do not fill the main axis are measured first, in order,
//! each within the space that the ones before it left. The children that fill
//! then divide what is left in proportion to their weights. The shares are
//! whole units: the space is cut at the running sums of the weights, so that
//! the shares add up to the space exactly and each is within one unit of the
//! exact proportion.
use vstd::prelude::*;

use crate::alignment::Alignment;
use crate::backend;
use crate::element::{items, Element};
use crate::layout::item::{heights, lay_children, problem, widths};
use crate::layout::limits::Limits;
use crate::layout::node::Node;
use crate::layout::node::Tree;
use crate::length::Length;
use crate::padding::Padding;
use crate::point::Point;
use crate::rectangle::Rectangle;
use crate::size::Size;
use crate::units::{add_u32, clamp_i32, clamp_u32, max_int, max_u32, sub_u32, to_i32};

verus! {

/// The main axis of a flex layout.
#[derive(Debug, Clone, Copy, PartialEq, Eq, Structural)]
pub enum Axis {
    /// Children are placed left to right.
    Horizontal,
    /// Children are placed top to bottom.
    Vertical,
}

impl Axis {
    /// The extent of `size` along the axis.
    pub open spec fn main_spec(self, size: Size) -> u32 {
        match self {
            Axis::Horizontal => size.width,
            Axis::Vertical => size.height,
        }
    }

    /// The extent of `size` across the axis.
    pub open spec fn cross_spec(self, size: Size) -> u32 {
        match self {
            Axis::Horizontal => size.height,
            Axis::Vertical => size.width,
        }
    }

    /// The size that is `main` long along the axis and `cross` across it.
    pub open spec fn pack_spec(self, main: u32, cross: u32) -> Size {
        match self {
            Axis::Horizontal => Size { width: main, height: cross },
            Axis::Vertical => Size { width: cross, height: main },
        }
    }

    /// The point at `main` along the axis and `cross` across it.
    pub open spec fn point_spec(self, main: i32, cross: i32) -> Point {
        match self {
            Axis::Horizontal => Point { x: main, y: cross },
            Axis::Vertical => Point { x: cross, y: main },
        }
    }

    /// The extent of `size` along the axis.
    pub fn main(&self, size: Size) -> (extent: u32)
        ensures
            extent == self.main_spec(size),
    {
        match self {
            Axis::Horizontal => size.width,
            Axis::Vertical => size.height,
        }
    }

    /// The extent of `size` across the axis.
    pub fn cross(&self, size: Size) -> (extent: u32)
        ensures
            extent == self.cross_spec(size),
    {
        match self {
            Axis::Horizontal => size.height,
            Axis::Vertical => size.width,
        }
    }

    /// The size that is `main` long along the axis and `cross` across it.
    pub fn pack(&self, main: u32, cross: u32) -> (size: Size)
        ensures
            size == self.pack_spec(main, cross),
    {
        match self {
            Axis::Horizontal => Size { width: main, height: cross },
            Axis::Vertical => Size { width: cross, height: main },
        }
    }
}

/// A flex layout problem: a container's limits and spacing, the sizing
/// policies of its children, and the function that lays out a child within
/// given limits.
pub struct Flex {
    /// The main axis.
    pub axis: Axis,
    /// The limits of the container, narrowed by its own sizing policy.
    pub limits: Limits,
    /// The padding of the container.
    pub padding: Padding,
    /// The space between two children that follow each other.
    pub spacing: u16,
    /// How the children are placed across the axis.
    pub align_items: Alignment,
    /// The width policy of each child.
    pub widths: Seq<Length>,
    /// The height policy of each child.
    pub heights: Seq<Length>,
    /// The layout of the child with the given index within the given limits.
    pub lay: spec_fn(int, Limits) -> Tree,
}

impl Flex {
    /// The number of children.
    pub open spec fn count(self) -> nat {
        self.widths.len()
    }

    /// The weight with which child `i` fills the main axis; zero if it does
    /// not.
    pub open spec fn main_factor(self, i: int) -> int {
        match self.axis {
            Axis::Horizontal => self.widths[i].fill_factor_spec(),
            Axis::Vertical => self.heights[i].fill_factor_spec(),
        }
    }

    /// The weight with which child `i` fills across the axis.
    pub open spec fn cross_factor(self, i: int) -> int {
        match self.axis {
            Axis::Horizontal => self.heights[i].fill_factor_spec(),
            Axis::Vertical => self.widths[i].fill_factor_spec(),
        }
    }

    /// The limits for the content: those of the container without its
    /// padding.
    pub open spec fn padded(self) -> Limits {
        self.limits.pad_spec(self.padding)
    }

    /// The space that goes to the gaps between the children.
    pub open spec fn total_spacing(self) -> u32 {
        clamp_u32(self.spacing * max_int(self.count() - 1, 0))
    }

    /// The largest extent across the axis.
    pub open spec fn max_cross(self) -> u32 {
        self.axis.cross_spec(self.padded().max)
    }

    /// The space along the axis that the children have together.
    pub open spec fn space(self) -> u32 {
        clamp_u32(self.axis.main_spec(self.padded().max) - self.total_spacing())
    }

    /// Where children are stretched across the axis: the extent that the
    /// first `k` children ask for, taking those that do not fill across it at
    /// their own size within all the space.
    pub open spec fn stretch_cross(self, k: nat) -> u32
        decreases k,
    {
        if k == 0 {
            self.axis.cross_spec(self.padded().min)
        } else {
            let before = self.stretch_cross((k - 1) as nat);
            if self.cross_factor(k - 1) == 0 {
                let limits = Limits::new_spec(
                    Size { width: 0, height: 0 },
                    self.axis.pack_spec(self.space(), self.max_cross()),
                );
                let size = (self.lay)(k - 1, limits).size();
                max_int(before as int, self.axis.cross_spec(size) as int) as u32
            } else {
                before
            }
        }
    }

    /// The extent across the axis before any child is laid out.
    pub open spec fn start_cross(self) -> u32 {
        if self.align_items == Alignment::Fill {
            self.stretch_cross(self.count())
        } else {
            max_int(
                self.axis.cross_spec(self.padded().min) as int,
                self.axis.cross_spec(self.padded().fill) as int,
            ) as u32
        }
    }

    /// The limits of a child that does not fill the main axis, when
    /// `available` is left along it.
    pub open spec fn fixed_limits(self, available: u32) -> Limits {
        if self.align_items == Alignment::Fill {
            Limits::new_spec(
                self.axis.pack_spec(0, self.start_cross()),
                self.axis.pack_spec(available, self.start_cross()),
            )
        } else {
            Limits::new_spec(self.axis.pack_spec(0, 0), self.axis.pack_spec(available, self.max_cross()))
        }
    }

    /// The limits of a child that fills the main axis and whose share of it
    /// is `share`: it is given exactly its share.
    pub open spec fn fill_limits(self, share: u32) -> Limits {
        if self.align_items == Alignment::Fill {
            Limits::new_spec(
                self.axis.pack_spec(share, self.start_cross()),
                self.axis.pack_spec(share, self.start_cross()),
            )
        } else {
            Limits::new_spec(
                self.axis.pack_spec(share, self.axis.cross_spec(self.padded().min)),
                self.axis.pack_spec(share, self.max_cross()),
            )
        }
    }

    /// The space along the axis that is left once the children among the
    /// first `k` that do not fill it are laid out; never negative.
    pub open spec fn available(self, k: nat) -> u32
        decreases k,
    {
        if k == 0 {
            self.space()
        } else {
            let before = self.available((k - 1) as nat);
            if self.main_factor(k - 1) == 0 {
                let size = (self.lay)(k - 1, self.fixed_limits(before)).size();
                clamp_u32(before - self.axis.main_spec(size))
            } else {
                before
            }
        }
    }

    /// The sum of the weights of the children among the first `k` that fill
    /// the main axis.
    pub open spec fn weight(self, k: nat) -> int
        decreases k,
    {
        if k == 0 {
            0
        } else {
            self.weight((k - 1) as nat) + self.main_factor(k - 1)
        }
    }

    /// The space that the children that fill the main axis divide.
    pub open spec fn remaining(self) -> u32 {
        self.available(self.count())
    }

    /// The total weight of the children that fill the main axis.
    pub open spec fn total_weight(self) -> int {
        self.weight(self.count())
    }

    /// The mark along the remaining space at which the shares of the first
    /// `k` children end.
    pub open spec fn cut(self, k: nat) -> int {
        if self.total_weight() <= 0 {
            0
        } else {
            (self.remaining() * self.weight(k)) / self.total_weight()
        }
    }

    /// The share of the remaining space that goes to child `i`.
    pub open spec fn share(self, i: int) -> int {
        self.cut((i + 1) as nat) - self.cut(i as nat)
    }

    /// The node of child `i`, not yet positioned.
    pub open spec fn sized(self, i: int) -> Tree {
        if self.main_factor(i) == 0 {
            (self.lay)(i, self.fixed_limits(self.available(i as nat)))
        } else {
            (self.lay)(i, self.fill_limits(self.share(i) as u32))
        }
    }

    /// The largest extent across the axis among the first `k` children and
    /// the extent at the start.
    pub open spec fn cross_upto(self, k: nat) -> u32
        decreases k,
    {
        if k == 0 {
            self.start_cross()
        } else {
            max_int(
                self.cross_upto((k - 1) as nat) as int,
                self.axis.cross_spec(self.sized(k - 1).size()) as int,
            ) as u32
        }
    }

    /// The extent of the content across the axis.
    pub open spec fn cross(self) -> u32 {
        if self.align_items == Alignment::Fill {
            self.start_cross()
        } else {
            self.cross_upto(self.count())
        }
    }

    /// Where the content starts along the axis.
    pub open spec fn pad_main(self) -> u32 {
        match self.axis {
            Axis::Horizontal => self.padding.left as u32,
            Axis::Vertical => self.padding.top as u32,
        }
    }

    /// Where the content starts across the axis.
    pub open spec fn pad_cross(self) -> u32 {
        match self.axis {
            Axis::Horizontal => self.padding.top as u32,
            Axis::Vertical => self.padding.left as u32,
        }
    }

    /// Where child `i` starts along the axis: at the padding for the first
    /// child, and one gap after the end of the child before it for the
    /// others.
    pub open spec fn main_start(self, i: int) -> u32
        decreases i,
    {
        if i <= 0 {
            self.pad_main()
        } else {
            let before = clamp_u32(self.main_start(i - 1) + self.axis.main_spec(self.sized(i - 1).size()));
            clamp_u32(before + self.spacing)
        }
    }

    /// Where the last of the first `k` children ends along the axis.
    pub open spec fn main_end(self, k: nat) -> u32 {
        if k == 0 {
            self.pad_main()
        } else {
            clamp_u32(self.main_start(k - 1) + self.axis.main_spec(self.sized(k - 1).size()))
        }
    }

    /// The node of child `i`, positioned: moved to its place along the axis
    /// and aligned across it.
    pub open spec fn placed(self, i: int) -> Tree {
        let moved = self.sized(i).moved_to(
            self.axis.point_spec(clamp_i32(self.main_start(i) as int), clamp_i32(self.pad_cross() as int)),
        );
        match self.axis {
            Axis::Horizontal => moved.aligned(
                Alignment::Start,
                self.align_items,
                Size { width: 0, height: self.cross() },
            ),
            Axis::Vertical => moved.aligned(
                self.align_items,
                Alignment::Start,
                Size { width: self.cross(), height: 0 },
            ),
        }
    }

    /// The extent of the content: from the start of the first child to the
    /// end of the last along the axis, and the largest extent across it.
    pub open spec fn content(self) -> Size {
        self.axis.pack_spec(clamp_u32(self.main_end(self.count()) - self.pad_main()), self.cross())
    }

    /// The size of the container: that of the content, resolved within the
    /// limits, with the padding around it.
    pub open spec fn size(self) -> Size {
        self.padded().resolve_spec(self.content()).padded(self.padding)
    }

    /// The node of the container: its size at the origin, and its children
    /// positioned inside it.
    pub open spec fn tree(self) -> Tree {
        Tree {
            bounds: Rectangle { x: 0, y: 0, width: self.size().width, height: self.size().height },
            children: Seq::new(self.count(), |i: int| self.placed(i)),
        }
    }
}

/// The quotient `a * b / c` of non-negative numbers grows with `b`, and is
/// no more than `a` where `b` is no more than `c`.
pub proof fn lemma_scaled_quotient(a: int, b1: int, b2: int, c: int)
    requires
        0 <= a,
        0 <= b1 <= b2 <= c,
        0 < c,
    ensures
        0 <= (a * b1) / c <= (a * b2) / c <= a,
{
    assert(0 <= a * b1 <= a * b2 <= a * c) by (nonlinear_arith)
        requires
            0 <= a,
            0 <= b1 <= b2 <= c,
    ;
    vstd::arithmetic::div_mod::lemma_div_is_ordered(0, a * b1, c);
    vstd::arithmetic::div_mod::lemma_div_is_ordered(a * b1, a * b2, c);
    vstd::arithmetic::div_mod::lemma_div_is_ordered(a * b2, a * c, c);
    vstd::arithmetic::div_mod::lemma_div_multiples_vanish(a, c);
    assert(a * c == c * a) by (nonlinear_arith);
    assert(0int / c == 0) by (nonlinear_arith)
        requires
            0 < c,
    ;
}

impl Flex {
    /// The running sum of the weights never falls.
    pub proof fn lemma_weight_monotone(self, i: nat, j: nat)
        requires
            i <= j,
        ensures
            0 <= self.weight(i) <= self.weight(j),
        decreases j,
    {
        if j == 0 {
        } else if i == j {
            self.lemma_weight_monotone(0, (j - 1) as nat);
        } else {
            self.lemma_weight_monotone(i, (j - 1) as nat);
        }
    }

    /// The marks at which the shares end run from zero up to the remaining
    /// space, and never fall.
    pub proof fn lemma_cut_monotone(self, i: nat, j: nat)
        requires
            i <= j <= self.count(),
        ensures
            0 <= self.cut(i) <= self.cut(j) <= self.remaining(),
            self.cut(0) == 0,
            self.total_weight() > 0 ==> self.cut(self.count()) == self.remaining(),
    {
        self.lemma_weight_monotone(i, j);
        self.lemma_weight_monotone(j, self.count());
        let total = self.total_weight();
        let rest = self.remaining() as int;
        if total > 0 {
            lemma_scaled_quotient(rest, self.weight(i), self.weight(j), total);
            lemma_scaled_quotient(rest, 0, 0, total);
            assert(rest * 0 == 0);
            vstd::arithmetic::div_mod::lemma_div_multiples_vanish(rest, total);
            assert(rest * total == total * rest) by (nonlinear_arith);
        }
    }

    /// Every share is a length: not negative, and no more than the remaining
    /// space.
    pub proof fn lemma_share_bounds(self, i: int)
        requires
            0 <= i < self.count(),
        ensures
            0 <= self.share(i) <= self.remaining(),
    {
        self.lemma_cut_monotone(i as nat, (i + 1) as nat);
    }
}

impl Flex {
    /// The sum of the shares of the first `k` children.
    pub open spec fn share_sum(self, k: nat) -> int
        decreases k,
    {
        if k == 0 {
            0
        } else {
            self.share_sum((k - 1) as nat) + self.share(k - 1)
        }
    }

    /// The shares of the first `k` children add up to the mark at which the
    /// share of the last of them ends.
    pub proof fn lemma_share_sum_is_cut(self, k: nat)
        requires
            k <= self.count(),
        ensures
            self.share_sum(k) == self.cut(k),
        decreases k,
    {
        if k == 0 {
            self.lemma_cut_monotone(0, 0);
        } else {
            self.lemma_share_sum_is_cut((k - 1) as nat);
        }
    }

    /// The children that fill the main axis divide the space that is left
    /// among them and leave nothing over: where any child fills, the shares of
    /// all the children add up to exactly the space that is left.
    pub proof fn lemma_shares_use_all_space(self)
        requires
            self.total_weight() > 0,
        ensures
            self.share_sum(self.count()) == self.remaining(),
    {
        self.lemma_share_sum_is_cut(self.count());
        self.lemma_cut_monotone(0, self.count());
    }

    /// Each share is the exact proportion of the space that is left, rounded
    /// to a whole unit: with `R` the space, `w` the weight of the child and
    /// `W` the total weight, the share differs from `R * w / W` by less than
    /// one unit. A child that does not fill gets no share, and no space left
    /// gives every child a share of zero.
    pub proof fn lemma_share_is_proportional(self, i: int)
        requires
            0 <= i < self.count(),
            self.total_weight() > 0,
        ensures
            self.remaining() * self.main_factor(i) - self.total_weight() < self.share(i) * self.total_weight(),
            self.share(i) * self.total_weight() < self.remaining() * self.main_factor(i) + self.total_weight(),
            self.main_factor(i) == 0 ==> self.share(i) == 0,
            self.remaining() == 0 ==> self.share(i) == 0,
            (self.remaining() * self.main_factor(i)) % self.total_weight() == 0 && (self.remaining() * self.weight(
                i as nat,
            )) % self.total_weight() == 0 ==> self.share(i) == (self.remaining() * self.main_factor(i))
                / self.total_weight(),
    {
        let rest = self.remaining() as int;
        let total = self.total_weight();
        let before = rest * self.weight(i as nat);
        let after = rest * self.weight((i + 1) as nat);
        let own = rest * self.main_factor(i);
        assert(after == before + own) by (nonlinear_arith)
            requires
                after == rest * (self.weight(i as nat) + self.main_factor(i)),
                before == rest * self.weight(i as nat),
                own == rest * self.main_factor(i),
        ;
        vstd::arithmetic::div_mod::lemma_fundamental_div_mod(before, total);
        vstd::arithmetic::div_mod::lemma_fundamental_div_mod(after, total);
        vstd::arithmetic::div_mod::lemma_mod_bound(before, total);
        vstd::arithmetic::div_mod::lemma_mod_bound(after, total);
        let share = self.share(i);
        assert(share == after / total - before / total);
        assert(share * total == total * (after / total) - total * (before / total)) by (nonlinear_arith)
            requires
                share == after / total - before / total,
        ;
        if self.remaining() == 0 {
            assert(before == 0 && after == 0) by (nonlinear_arith)
                requires
                    rest == 0,
                    before == rest * self.weight(i as nat),
                    after == rest * self.weight((i + 1) as nat),
            ;
        }
        if own % total == 0 && before % total == 0 {
            vstd::arithmetic::div_mod::lemma_fundamental_div_mod(own, total);
            assert(total * (after / total) + after % total == total * (before / total) + total * (own / total));
            let q = after / total;
            let r = after % total;
            let p = before / total + own / total;
            assert(total * p == total * (before / total) + total * (own / total)) by (nonlinear_arith)
                requires
                    p == before / total + own / total,
            ;
            assert(r == 0 && q == p) by (nonlinear_arith)
                requires
                    total * q + r == total * p,
                    0 <= r < total,
            ;
        }
    }
}

/// The space that the gaps between `count` children take, saturating.
fn total_spacing(spacing: u16, count: usize) -> (total: u32)
    ensures
        total == clamp_u32(spacing * max_int(count - 1, 0)),
{
    if count == 0 || spacing == 0 {
        assert(spacing * max_int(count - 1, 0) == 0) by (nonlinear_arith)
            requires
                count == 0 || spacing == 0,
                count >= 0,
        ;
        0
    } else {
        let gaps: usize = count - 1;
        if gaps > 0xffff_ffff {
            assert(spacing * max_int(count - 1, 0) > u32::MAX) by (nonlinear_arith)
                requires
                    spacing >= 1,
                    count - 1 > 0xffff_ffff,
            ;
            u32::MAX
        } else {
            assert(spacing * gaps <= 0xffff * 0xffff_ffff) by (nonlinear_arith)
                requires
                    spacing <= 0xffff,
                    gaps <= 0xffff_ffff,
            ;
            let product: u64 = spacing as u64 * gaps as u64;
            if product > 0xffff_ffff {
                u32::MAX
            } else {
                product as u32
            }
        }
    }
}

/// The extent across the axis that the children ask for where they are
/// stretched: the largest among those that do not fill across it, each at its
/// own size within all the space.
fn measure_stretch<Message, R: backend::Text>(
    axis: Axis,
    renderer: &R,
    children: &Vec<Element<Message>>,
    start: u32,
    space: u32,
    max_cross: u32,
    Ghost(flex): Ghost<Flex>,
) -> (cross: u32)
    requires
        flex.axis == axis,
        flex.widths == widths(items(children@)),
        flex.heights == heights(items(children@)),
        flex.lay == lay_children(items(children@), renderer),
        start == axis.cross_spec(flex.padded().min),
        space == flex.space(),
        max_cross == flex.max_cross(),
    ensures
        cross == flex.stretch_cross(flex.count()),
    decreases items(children@), 0nat, 0nat,
{
    let count = children.len();
    let mut cross = start;
    let mut k: usize = 0;
    while k < count
        invariant
            k <= count,
            count == children@.len(),
            flex.count() == count,
            flex.axis == axis,
            flex.widths == widths(items(children@)),
            flex.heights == heights(items(children@)),
            flex.lay == lay_children(items(children@), renderer),
            space == flex.space(),
            max_cross == flex.max_cross(),
            cross == flex.stretch_cross(k as nat),
        decreases count - k,
    {
        let cross_factor = match axis {
            Axis::Horizontal => children[k].height(),
            Axis::Vertical => children[k].width(),
        }.fill_factor();
        assert(cross_factor == flex.cross_factor(k as int));
        if cross_factor == 0 {
            let child_limits = Limits::new(Size::zero(), axis.pack(space, max_cross));
            let layout = children[k].layout(renderer, &child_limits);
            cross = max_u32(cross, axis.cross(layout.size()));
        }
        k += 1;
    }
    cross
}

/// Lays out the children that do not fill the main axis, in order, each
/// within the space that the ones before it left. The children that fill the
/// axis get an empty node for now. Returns the nodes, the space that is left
/// and the sum of the weights of the children that fill.
fn lay_fixed<Message, R: backend::Text>(
    axis: Axis,
    renderer: &R,
    children: &Vec<Element<Message>>,
    stretch: bool,
    start_cross: u32,
    space: u32,
    max_cross: u32,
    Ghost(flex): Ghost<Flex>,
) -> (laid: (Vec<Node>, u32, u128))
    requires
        flex.axis == axis,
        flex.widths == widths(items(children@)),
        flex.heights == heights(items(children@)),
        flex.lay == lay_children(items(children@), renderer),
        stretch == (flex.align_items == Alignment::Fill),
        start_cross == flex.start_cross(),
        space == flex.space(),
        max_cross == flex.max_cross(),
    ensures
        laid.0@.len() == flex.count(),
        laid.1 == flex.remaining(),
        laid.2 == flex.total_weight(),
        laid.2 <= flex.count() * 0xffff,
        forall|j: int| 0 <= j < flex.count() && flex.main_factor(j) == 0 ==> (#[trigger] laid.0@[j])@ == flex.sized(j),
    decreases items(children@), 0nat, 0nat,
{
    let count = children.len();
    let mut nodes: Vec<Node> = Vec::new();
    let mut available = space;
    let mut fill_sum: u128 = 0;
    let mut i: usize = 0;
    while i < count
        invariant
            i <= count,
            count == children@.len(),
            flex.count() == count,
            flex.axis == axis,
            flex.widths == widths(items(children@)),
            flex.heights == heights(items(children@)),
            flex.lay == lay_children(items(children@), renderer),
            stretch == (flex.align_items == Alignment::Fill),
            start_cross == flex.start_cross(),
            max_cross == flex.max_cross(),
            nodes@.len() == i,
            available == flex.available(i as nat),
            fill_sum == flex.weight(i as nat),
            fill_sum <= i * 0xffff,
            forall|j: int| 0 <= j < i && flex.main_factor(j) == 0 ==> (#[trigger] nodes@[j])@ == flex.sized(j),
        decreases count - i,
    {
        let fill_factor = match axis {
            Axis::Horizontal => children[i].width(),
            Axis::Vertical => children[i].height(),
        }.fill_factor();
        assert(fill_factor == flex.main_factor(i as int));
        if fill_factor == 0 {
            let child_limits = if stretch {
                Limits::new(axis.pack(0, start_cross), axis.pack(available, start_cross))
            } else {
                Limits::new(axis.pack(0, 0), axis.pack(available, max_cross))
            };
            assert(child_limits == flex.fixed_limits(available));
            let layout = children[i].layout(renderer, &child_limits);
            assert(layout@ == flex.sized(i as int));
            available = sub_u32(available, axis.main(layout.size()));
            nodes.push(layout);
        } else {
            fill_sum = fill_sum + fill_factor as u128;
            nodes.push(Node::new(Size::zero()));
        }
        i += 1;
    }
    (nodes, available, fill_sum)
}

/// Lays out the children that fill the main axis: each within exactly its
/// share of the space that is left.
fn lay_filling<Message, R: backend::Text>(
    axis: Axis,
    renderer: &R,
    children: &Vec<Element<Message>>,
    nodes: &mut Vec<Node>,
    stretch: bool,
    start_cross: u32,
    min_cross: u32,
    max_cross: u32,
    remaining: u32,
    fill_sum: u128,
    Ghost(flex): Ghost<Flex>,
)
    requires
        flex.axis == axis,
        flex.widths == widths(items(children@)),
        flex.heights == heights(items(children@)),
        flex.lay == lay_children(items(children@), renderer),
        stretch == (flex.align_items == Alignment::Fill),
        start_cross == flex.start_cross(),
        min_cross == axis.cross_spec(flex.padded().min),
        max_cross == flex.max_cross(),
        remaining == flex.remaining(),
        fill_sum == flex.total_weight(),
        fill_sum <= flex.count() * 0xffff,
        old(nodes)@.len() == flex.count(),
        forall|j: int|
            0 <= j < flex.count() && flex.main_factor(j) == 0 ==> (#[trigger] old(nodes)@[j])@ == flex.sized(j),
    ensures
        final(nodes)@.len() == flex.count(),
        forall|j: int| 0 <= j < flex.count() ==> (#[trigger] final(nodes)@[j])@ == flex.sized(j),
    decreases items(children@), 0nat, 0nat,
{
    let count = children.len();
    let mut before: u128 = 0;
    let mut i: usize = 0;
    while i < count
        invariant
            i <= count,
            count == children@.len(),
            flex.count() == count,
            flex.axis == axis,
            flex.widths == widths(items(children@)),
            flex.heights == heights(items(children@)),
            flex.lay == lay_children(items(children@), renderer),
            stretch == (flex.align_items == Alignment::Fill),
            start_cross == flex.start_cross(),
            min_cross == axis.cross_spec(flex.padded().min),
            max_cross == flex.max_cross(),
            remaining == flex.remaining(),
            fill_sum == flex.total_weight(),
            fill_sum <= count * 0xffff,
            nodes@.len() == count,
            before == flex.weight(i as nat),
            forall|j: int| 0 <= j < count && flex.main_factor(j) == 0 ==> (#[trigger] nodes@[j])@ == flex.sized(j),
            forall|j: int| 0 <= j < i ==> (#[trigger] nodes@[j])@ == flex.sized(j),
        decreases count - i,
    {
        let fill_factor = match axis {
            Axis::Horizontal => children[i].width(),
            Axis::Vertical => children[i].height(),
        }.fill_factor();
        assert(fill_factor == flex.main_factor(i as int));
        if fill_factor != 0 {
            proof {
                flex.lemma_weight_monotone((i + 1) as nat, count as nat);
                flex.lemma_weight_monotone(i as nat, (i + 1) as nat);
                flex.lemma_cut_monotone(i as nat, (i + 1) as nat);
                assert(remaining * (before + fill_factor) <= 0xffff_ffff * fill_sum) by (nonlinear_arith)
                    requires
                        0 <= remaining <= 0xffff_ffff,
                        0 <= before + fill_factor <= fill_sum,
                ;
                assert(remaining * before <= 0xffff_ffff * fill_sum) by (nonlinear_arith)
                    requires
                        0 <= remaining <= 0xffff_ffff,
                        0 <= before <= fill_sum,
                ;
                assert(0xffff_ffff * fill_sum <= 0xffff_ffff * (0xffff_ffff_ffff_ffff * 0xffff)) by (nonlinear_arith)
                    requires
                        fill_sum <= count * 0xffff,
                        count <= 0xffff_ffff_ffff_ffff,
                ;
            }
            let after: u128 = before + fill_factor as u128;
            let cut_after: u128 = remaining as u128 * after / fill_sum;
            let cut_before: u128 = remaining as u128 * before / fill_sum;
            assert(cut_after == flex.cut((i + 1) as nat));
            assert(cut_before == flex.cut(i as nat));
            let share: u32 = (cut_after - cut_before) as u32;
            assert(share == flex.share(i as int));
            let child_limits = if stretch {
                Limits::new(axis.pack(share, start_cross), axis.pack(share, start_cross))
            } else {
                Limits::new(axis.pack(share, min_cross), axis.pack(share, max_cross))
            };
            assert(child_limits == flex.fill_limits(share));
            let layout = children[i].layout(renderer, &child_limits);
            assert(layout@ == flex.sized(i as int));
            nodes.set(i, layout);
            before = after;
        }
        i += 1;
    }
}

/// The largest extent across the axis among the sized children and `start`.
fn measure_cross(axis: Axis, nodes: &Vec<Node>, start: u32, Ghost(flex): Ghost<Flex>) -> (cross: u32)
    requires
        flex.axis == axis,
        start == flex.start_cross(),
        nodes@.len() == flex.count(),
        forall|j: int| 0 <= j < flex.count() ==> (#[trigger] nodes@[j])@ == flex.sized(j),
    ensures
        cross == flex.cross_upto(flex.count()),
{
    let count = nodes.len();
    let mut cross = start;
    let mut k: usize = 0;
    while k < count
        invariant
            k <= count,
            count == nodes@.len(),
            count == flex.count(),
            flex.axis == axis,
            cross == flex.cross_upto(k as nat),
            forall|j: int| 0 <= j < count ==> (#[trigger] nodes@[j])@ == flex.sized(j),
        decreases count - k,
    {
        cross = max_u32(cross, axis.cross(nodes[k].size()));
        k += 1;
    }
    cross
}

/// Moves each sized child to its place along the axis, one spacing after the
/// child before it, and aligns it across the axis. Returns where the last
/// child ends.
fn place(
    axis: Axis,
    nodes: &mut Vec<Node>,
    padding: Padding,
    spacing: u16,
    align_items: Alignment,
    cross: u32,
    Ghost(flex): Ghost<Flex>,
) -> (end: u32)
    requires
        flex.axis == axis,
        flex.padding == padding,
        flex.spacing == spacing,
        flex.align_items == align_items,
        cross == flex.cross(),
        old(nodes)@.len() == flex.count(),
        forall|j: int| 0 <= j < flex.count() ==> (#[trigger] old(nodes)@[j])@ == flex.sized(j),
    ensures
        end == flex.main_end(flex.count()),
        final(nodes)@.len() == flex.count(),
        forall|j: int| 0 <= j < flex.count() ==> (#[trigger] final(nodes)@[j])@ == flex.placed(j),
{
    let count = nodes.len();
    let pad_main: u32 = match axis {
        Axis::Horizontal => padding.left as u32,
        Axis::Vertical => padding.top as u32,
    };
    let pad_cross: u32 = match axis {
        Axis::Horizontal => padding.top as u32,
        Axis::Vertical => padding.left as u32,
    };
    let mut end: u32 = pad_main;
    let mut i: usize = 0;
    while i < count
        invariant
            i <= count,
            count == flex.count(),
            flex.axis == axis,
            flex.padding == padding,
            flex.spacing == spacing,
            flex.align_items == align_items,
            cross == flex.cross(),
            pad_main == flex.pad_main(),
            pad_cross == flex.pad_cross(),
            nodes@.len() == count,
            end == flex.main_end(i as nat),
            forall|j: int| i <= j < count ==> (#[trigger] nodes@[j])@ == flex.sized(j),
            forall|j: int| 0 <= j < i ==> (#[trigger] nodes@[j])@ == flex.placed(j),
        decreases count - i,
    {
        let start = if i > 0 {
            add_u32(end, spacing as u32)
        } else {
            end
        };
        assert(start == flex.main_start(i as int));
        let mut node = Node::new(Size::zero());
        nodes.set_and_swap(i, &mut node);
        assert(node@ == flex.sized(i as int));
        let extent = axis.main(node.size());
        let main_position = to_i32(start as i64);
        let cross_position = to_i32(pad_cross as i64);
        match axis {
            Axis::Horizontal => {
                node.move_to(Point { x: main_position, y: cross_position });
                node.align(Alignment::Start, align_items, Size { width: 0, height: cross });
            },
            Axis::Vertical => {
                node.move_to(Point { x: cross_position, y: main_position });
                node.align(align_items, Alignment::Start, Size { width: cross, height: 0 });
            },
        }
        assert(node@ == flex.placed(i as int));
        end = add_u32(start, extent);
        nodes.set(i, node);
        i += 1;
    }
    end
}

/// Lays out the widgets `children` one after the other along `axis`, within
/// `limits` that the container's own sizing policy narrowed already.
///
/// The children that do not fill the axis are laid out first, in order, each
/// within what the ones before it left. The children that fill it divide the
/// rest in proportion to their weights; no space left gives them none. Each
/// child is then moved to its place, one spacing after the child before it,
/// and aligned across the axis. The container takes the size of its content,
/// resolved within the limits, with the padding around it.
pub fn resolve<Message, R: backend::Text>(
    axis: Axis,
    renderer: &R,
    limits: &Limits,
    padding: Padding,
    spacing: u16,
    align_items: Alignment,
    children: &Vec<Element<Message>>,
) -> (node: Node)
    ensures
        node@ == problem(axis, *limits, padding, spacing, align_items, items(children@), renderer).tree(),
    decreases items(children@), 0nat, 1nat,
{
    let ghost flex = problem(axis, *limits, padding, spacing, align_items, items(children@), renderer);
    let count = children.len();
    assert(flex.count() == count);
    let padded = limits.pad(padding);
    let gaps = total_spacing(spacing, count);
    let min_cross = axis.cross(padded.min());
    let max_cross = axis.cross(padded.max());
    let space = sub_u32(axis.main(padded.max()), gaps);
    let stretch = matches!(align_items, Alignment::Fill);
    let start_cross = if stretch {
        measure_stretch(axis, renderer, children, min_cross, space, max_cross, Ghost(flex))
    } else {
        max_u32(min_cross, axis.cross(padded.fill()))
    };
    let (mut nodes, remaining, fill_sum) = lay_fixed(
        axis,
        renderer,
        children,
        stretch,
        start_cross,
        space,
        max_cross,
        Ghost(flex),
    );
    lay_filling(
        axis,
        renderer,
        children,
        &mut nodes,
        stretch,
        start_cross,
        min_cross,
        max_cross,
        remaining,
        fill_sum,
        Ghost(flex),
    );
    let cross = if stretch {
        start_cross
    } else {
        measure_cross(axis, &nodes, start_cross, Ghost(flex))
    };
    let end = place(axis, &mut nodes, padding, spacing, align_items, cross, Ghost(flex));
    let pad_main: u32 = match axis {
        Axis::Horizontal => padding.left as u32,
        Axis::Vertical => padding.top as u32,
    };
    let content = axis.pack(sub_u32(end, pad_main), cross);
    let size = padded.resolve(content).pad(padding);
    let node = Node::with_children(size, nodes);
    assert(node@.children =~= flex.tree().children);
    node
}

} // verus!
