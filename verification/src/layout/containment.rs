//! Nodes contain their children.
//!
//! A container that has room for its padding and for the gaps between its
//! children, and whose children stay within the limits they are given, gets a
//! node that contains the nodes of its children. This module states when
//! that is so, for one container and for a whole tree.
use vstd::prelude::*;

use crate::alignment::Alignment;
use crate::backend;
use crate::layout::flex::Flex;
use crate::layout::item::{problem, Item};
use crate::layout::limits::Limits;
use crate::layout::node::Tree;
use crate::size::Size;
use crate::units::max_int;

verus! {

impl Tree {
    /// Whether the bounds of `child`, which are relative to this node, lie
    /// inside the extent of this node.
    pub open spec fn holds(self, child: Tree) -> bool {
        &&& 0 <= child.bounds.x
        &&& 0 <= child.bounds.y
        &&& child.bounds.right() <= self.bounds.width
        &&& child.bounds.bottom() <= self.bounds.height
    }

    /// Whether this node contains each of its children.
    pub open spec fn holds_children(self) -> bool {
        forall|i: int| 0 <= i < self.children.len() ==> self.holds(#[trigger] self.children[i])
    }

    /// Whether every node of the tree contains each of its children.
    pub open spec fn nested(self) -> bool
        decreases self,
    {
        &&& self.holds_children()
        &&& forall|i: int| 0 <= i < self.children.len() ==> (#[trigger] self.children[i]).nested()
    }

    /// Whether the tree is no larger than `size`.
    pub open spec fn within(self, size: Size) -> bool {
        self.bounds.width <= size.width && self.bounds.height <= size.height
    }
}

impl Limits {
    /// Whether the smallest size is no larger than the largest.
    pub open spec fn ordered(self) -> bool {
        self.min.width <= self.max.width && self.min.height <= self.max.height
    }
}

impl Flex {
    /// The limits that child `i` is laid out within.
    pub open spec fn given(self, i: int) -> Limits {
        if self.main_factor(i) == 0 {
            self.fixed_limits(self.available(i as nat))
        } else {
            self.fill_limits(self.share(i) as u32)
        }
    }

    /// The limits within which a child is measured where children are
    /// stretched across the axis.
    pub open spec fn stretch_limits(self) -> Limits {
        Limits::new_spec(Size { width: 0, height: 0 }, self.axis.pack_spec(self.space(), self.max_cross()))
    }

    /// Whether every child stays within the limits it is laid out within.
    pub open spec fn tame(self) -> bool {
        &&& forall|i: int| 0 <= i < self.count() ==> (#[trigger] self.sized(i)).within(self.given(i).max)
        &&& self.align_items == Alignment::Fill ==> forall|i: int|
            0 <= i < self.count() ==> (#[trigger] (self.lay)(i, self.stretch_limits())).within(
                self.stretch_limits().max,
            )
    }

    /// Whether the container has room for its gaps, and its limits are in
    /// order: the smallest size and the floor are no larger than the largest
    /// size.
    pub open spec fn roomy(self) -> bool {
        &&& self.padded().ordered()
        &&& self.padded().fill.width <= self.padded().max.width
        &&& self.padded().fill.height <= self.padded().max.height
        &&& self.spacing * max_int(self.count() - 1, 0) <= self.axis.main_spec(self.padded().max)
    }

    /// The extent along the axis that the first `k` children take together.
    pub open spec fn taken(self, k: nat) -> int
        decreases k,
    {
        if k == 0 {
            0
        } else {
            self.taken((k - 1) as nat) + self.axis.main_spec(self.sized(k - 1).size())
        }
    }

    /// The space that is left never grows, and never falls below what is
    /// left in the end.
    pub proof fn lemma_available_falls(self, i: nat, j: nat)
        requires
            i <= j,
        ensures
            self.available(j) <= self.available(i) <= self.space(),
        decreases j,
    {
        if j > 0 {
            if i == j {
                self.lemma_available_falls(0, (j - 1) as nat);
            } else {
                self.lemma_available_falls(i, (j - 1) as nat);
            }
        }
    }

    /// What the first `k` children take together is what the ones among them
    /// that do not fill the axis took off the space, and no more than the
    /// shares of the others.
    proof fn lemma_taken(self, k: nat)
        requires
            self.tame(),
            k <= self.count(),
        ensures
            0 <= self.taken(k) <= self.space() - self.available(k) + self.cut(k),
            self.taken(k) <= self.space(),
        decreases k,
    {
        self.lemma_cut_monotone(k, k);
        self.lemma_cut_monotone(k, self.count());
        self.lemma_available_falls(k, self.count());
        if k > 0 {
            let i = (k - 1) as int;
            self.lemma_taken((k - 1) as nat);
            self.lemma_cut_monotone((k - 1) as nat, k);
            assert(self.sized(i).within(self.given(i).max));
            if self.main_factor(i) == 0 {
                assert(self.weight(k) == self.weight((k - 1) as nat));
            } else {
                self.lemma_share_bounds(i);
            }
        }
    }

    /// What the first children take together never falls as more children are
    /// counted.
    proof fn lemma_taken_grows(self, i: nat, j: nat)
        requires
            i <= j,
        ensures
            self.taken(i) <= self.taken(j),
        decreases j,
    {
        if i < j {
            self.lemma_taken_grows(i, (j - 1) as nat);
        }
    }

    /// The padding at the start of the axis and the largest extent of the
    /// content fit into a length together.
    proof fn lemma_padding_fits(self)
        ensures
            self.pad_main() + self.axis.main_spec(self.padded().max) <= u32::MAX,
            self.pad_cross() + self.axis.cross_spec(self.padded().max) <= u32::MAX,
    {
    }

    /// Where each child starts: after the padding, the children before it and
    /// the gaps between them, with nothing lost to saturation.
    proof fn lemma_main_start(self, i: int)
        requires
            self.tame(),
            self.roomy(),
            0 <= i < self.count(),
        ensures
            self.main_start(i) == self.pad_main() + self.taken(i as nat) + self.spacing * i,
            self.main_start(i) + self.axis.main_spec(self.sized(i).size()) <= self.pad_main() + self.axis.main_spec(
                self.padded().max,
            ),
        decreases i,
    {
        let gaps = self.spacing * max_int(self.count() - 1, 0);
        let most = self.axis.main_spec(self.padded().max) as int;
        self.lemma_padding_fits();
        self.lemma_taken((i + 1) as nat);
        self.lemma_taken(i as nat);
        assert(0 <= self.spacing * i <= gaps) by (nonlinear_arith)
            requires
                0 <= i <= self.count() - 1,
                gaps == self.spacing * max_int(self.count() - 1, 0),
                0 <= self.spacing,
        ;
        assert(self.space() == most - gaps);
        if i > 0 {
            self.lemma_main_start(i - 1);
            assert(self.spacing * i == self.spacing * (i - 1) + self.spacing) by (nonlinear_arith);
        } else {
            assert(self.spacing * i == 0) by (nonlinear_arith)
                requires
                    i == 0,
            ;
        }
    }

    /// The largest extent across the axis among the first children is at
    /// least that of each of them and that at the start, and at most the
    /// largest extent allowed.
    proof fn lemma_cross_upto(self, k: nat)
        requires
            self.tame(),
            self.roomy(),
            self.align_items != Alignment::Fill,
            k <= self.count(),
        ensures
            self.start_cross() <= self.cross_upto(k) <= self.max_cross(),
            forall|j: int|
                0 <= j < k ==> self.axis.cross_spec((#[trigger] self.sized(j)).size()) <= self.cross_upto(k),
        decreases k,
    {
        if k > 0 {
            self.lemma_cross_upto((k - 1) as nat);
            assert(self.sized(k - 1).within(self.given(k - 1).max));
        }
    }

    /// The extent that stretched children ask for is at most the largest
    /// extent allowed.
    proof fn lemma_stretch_cross(self, k: nat)
        requires
            self.tame(),
            self.roomy(),
            self.align_items == Alignment::Fill,
            k <= self.count(),
        ensures
            self.stretch_cross(k) <= self.max_cross(),
        decreases k,
    {
        if k > 0 {
            self.lemma_stretch_cross((k - 1) as nat);
            assert((self.lay)(k - 1, self.stretch_limits()).within(self.stretch_limits().max));
        }
    }

    /// The extent of the content across the axis is at most the largest
    /// extent allowed, and at least that of each child.
    proof fn lemma_cross(self)
        requires
            self.tame(),
            self.roomy(),
        ensures
            self.cross() <= self.max_cross(),
            forall|j: int|
                0 <= j < self.count() ==> self.axis.cross_spec((#[trigger] self.sized(j)).size()) <= self.cross(),
    {
        if self.align_items == Alignment::Fill {
            self.lemma_stretch_cross(self.count());
            assert forall|j: int| 0 <= j < self.count() implies self.axis.cross_spec(
                (#[trigger] self.sized(j)).size(),
            ) <= self.cross() by {
                assert(self.sized(j).within(self.given(j).max));
            }
        } else {
            self.lemma_cross_upto(self.count());
        }
    }

    /// A container that has room for its gaps, and whose children stay
    /// within the limits they are given, contains all its children: each
    /// child lies inside the node of the container, and the container is no
    /// smaller than its content with the padding around it.
    pub proof fn lemma_contains_children(self)
        requires
            self.tame(),
            self.roomy(),
        ensures
            self.tree().holds_children(),
    {
        let tree = self.tree();
        let count = self.count();
        self.lemma_padding_fits();
        self.lemma_cross();
        let most = self.axis.main_spec(self.padded().max) as int;
        assert forall|i: int| 0 <= i < tree.children.len() implies tree.holds(#[trigger] tree.children[i]) by {
            assert(tree.children[i] == self.placed(i));
            self.lemma_main_start(i);
            self.lemma_main_start(count - 1);
            self.lemma_taken_grows((i + 1) as nat, count);
            self.lemma_taken(count);
            assert(self.spacing * i <= self.spacing * (count - 1)) by (nonlinear_arith)
                requires
                    0 <= i <= count - 1,
                    0 <= self.spacing,
            ;
            let end = self.main_end(count);
            assert(end == self.pad_main() + self.taken(count) + self.spacing * (count - 1));
            assert(self.main_start(i) + self.axis.main_spec(self.sized(i).size()) <= end);
            assert(self.axis.cross_spec(self.sized(i).size()) <= self.cross());
        }
    }
}

impl Item {
    /// Whether the item, laid out within `limits`, has room at every depth:
    /// every container in it has room for its padding and for the gaps
    /// between its children within the limits that it is given in turn.
    pub open spec fn roomy_in<R: backend::Text>(self, renderer: &R, limits: Limits) -> bool
        decreases self,
    {
        match self {
            Item::Flex {
                axis,
                spacing,
                padding,
                width,
                height,
                max_width,
                max_height,
                align_items,
                children,
            } => {
                let narrowed = Item::narrowed(limits, width, height, max_width, max_height);
                let flex = problem(axis, narrowed, padding, spacing, align_items, children, renderer);
                &&& padding.horizontal_spec() <= narrowed.max.width
                &&& padding.vertical_spec() <= narrowed.max.height
                &&& spacing * max_int(children.len() - 1, 0) <= axis.main_spec(flex.padded().max)
                &&& forall|i: int| 0 <= i < children.len() ==> (#[trigger] children[i]).roomy_in(renderer, flex.given(i))
                &&& align_items == Alignment::Fill ==> forall|i: int|
                    0 <= i < children.len() ==> (#[trigger] children[i]).roomy_in(renderer, flex.stretch_limits())
            },
            _ => true,
        }
    }

    /// An item that has room at every depth, laid out within limits that are
    /// in order, stays within the limits, and every node of its tree contains
    /// its children.
    pub proof fn lemma_layout_nested<R: backend::Text>(self, renderer: &R, limits: Limits)
        requires
            limits.ordered(),
            self.roomy_in(renderer, limits),
        ensures
            self.layout(renderer, limits).within(limits.max),
            self.layout(renderer, limits).nested(),
        decreases self,
    {
        match self {
            Item::Flex {
                axis,
                spacing,
                padding,
                width,
                height,
                max_width,
                max_height,
                align_items,
                children,
            } => {
                let narrowed = Item::narrowed(limits, width, height, max_width, max_height);
                let flex = problem(axis, narrowed, padding, spacing, align_items, children, renderer);
                assert(narrowed.ordered());
                assert(narrowed.fill.width <= narrowed.max.width);
                assert(narrowed.fill.height <= narrowed.max.height);
                assert(narrowed.max.width <= limits.max.width || narrowed.max.width == limits.min.width);
                assert forall|i: int| 0 <= i < flex.count() implies (#[trigger] flex.sized(i)).within(
                    flex.given(i).max,
                ) && flex.sized(i).nested() by {
                    if flex.main_factor(i) != 0 {
                        flex.lemma_share_bounds(i);
                    }
                    assert(flex.given(i).ordered());
                    children[i].lemma_layout_nested(renderer, flex.given(i));
                }
                if align_items == Alignment::Fill {
                    assert forall|i: int| 0 <= i < flex.count() implies (#[trigger] (flex.lay)(
                        i,
                        flex.stretch_limits(),
                    )).within(flex.stretch_limits().max) by {
                        children[i].lemma_layout_nested(renderer, flex.stretch_limits());
                    }
                }
                flex.lemma_contains_children();
                flex.lemma_cross();
                let tree = flex.tree();
                assert forall|i: int| 0 <= i < tree.children.len() implies (#[trigger] tree.children[i]).nested() by {
                    let placed = flex.placed(i);
                    let sized = flex.sized(i);
                    assert(tree.children[i] == placed);
                    assert(placed.children == sized.children);
                    assert(sized.nested());
                    assert(flex.axis.cross_spec(sized.size()) <= flex.cross());
                    assert(placed.bounds.width >= sized.bounds.width);
                    assert(placed.bounds.height >= sized.bounds.height);
                    assert forall|j: int| 0 <= j < placed.children.len() implies placed.holds(
                        #[trigger] placed.children[j],
                    ) by {
                        assert(sized.holds(sized.children[j]));
                    }
                }
            },
            _ => {},
        }
    }

    /// Whether no container in the item has padding or spacing.
    pub open spec fn plain(self) -> bool
        decreases self,
    {
        match self {
            Item::Flex { spacing, padding, children, .. } => {
                &&& spacing == 0
                &&& padding.horizontal_spec() == 0
                &&& padding.vertical_spec() == 0
                &&& forall|i: int| 0 <= i < children.len() ==> (#[trigger] children[i]).plain()
            },
            _ => true,
        }
    }

    /// An item without padding and spacing has room at every depth, whatever
    /// the limits.
    pub proof fn lemma_plain_is_roomy<R: backend::Text>(self, renderer: &R, limits: Limits)
        requires
            self.plain(),
        ensures
            self.roomy_in(renderer, limits),
        decreases self,
    {
        match self {
            Item::Flex {
                axis,
                spacing,
                padding,
                width,
                height,
                max_width,
                max_height,
                align_items,
                children,
            } => {
                let narrowed = Item::narrowed(limits, width, height, max_width, max_height);
                let flex = problem(axis, narrowed, padding, spacing, align_items, children, renderer);
                assert(spacing * max_int(children.len() - 1, 0) == 0) by (nonlinear_arith)
                    requires
                        spacing == 0,
                ;
                assert forall|i: int| 0 <= i < children.len() implies (#[trigger] children[i]).roomy_in(
                    renderer,
                    flex.given(i),
                ) by {
                    children[i].lemma_plain_is_roomy(renderer, flex.given(i));
                }
                assert forall|i: int| 0 <= i < children.len() implies (#[trigger] children[i]).roomy_in(
                    renderer,
                    flex.stretch_limits(),
                ) by {
                    children[i].lemma_plain_is_roomy(renderer, flex.stretch_limits());
                }
            },
            _ => {},
        }
    }
}

} // verus!
