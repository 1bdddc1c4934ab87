//! The positioned result of a layout pass.
use vstd::prelude::*;

use crate::alignment::Alignment;
use crate::point::Point;
use crate::rectangle::Rectangle;
use crate::size::Size;
use crate::units::{clamp_i32, half, to_i32};

verus! {

broadcast use vstd::std_specs::vec::group_vec_axioms;

/// The mathematical model of a [`Node`]: its bounds and the models of its
/// children, in order.
#[verifier::ext_equal]
pub struct Tree {
    /// The bounds of the node, positioned relative to its parent.
    pub bounds: Rectangle,
    /// The children of the node, first to last.
    pub children: Seq<Tree>,
}

/// The bounds of a laid out widget, relative to its parent, and the nodes of
/// its children in order.
#[derive(Debug)]
pub struct Node {
    /// The bounds of the node, positioned relative to its parent.
    pub bounds: Rectangle,
    /// The children of the node, first to last.
    pub children: Vec<Node>,
}

impl Node {
    /// The model of this node: its bounds, and the models of its children.
    pub open spec fn tree(&self) -> Tree
        decreases self,
    {
        Tree {
            bounds: self.bounds,
            children: Seq::new(
                self.children.len() as nat,
                |i: int|
                    if 0 <= i < self.children.len() {
                        self.children[i].tree()
                    } else {
                        arbitrary()
                    },
            ),
        }
    }
}

impl View for Node {
    type V = Tree;

    open spec fn view(&self) -> Tree {
        self.tree()
    }
}

/// The position along one axis of an extent `extent`, now at `position`,
/// after it is aligned within `space`; halves round towards the start.
pub open spec fn align_position(alignment: Alignment, position: i32, extent: u32, space: u32) -> i32 {
    match alignment {
        Alignment::Start => position,
        Alignment::Center => clamp_i32(position + (space - extent) / 2),
        Alignment::End => clamp_i32(position + (space - extent)),
        Alignment::Fill => position,
    }
}

/// The extent along one axis of an extent `extent` after it is aligned within
/// `space`: only filling changes it.
pub open spec fn align_extent(alignment: Alignment, extent: u32, space: u32) -> u32 {
    match alignment {
        Alignment::Fill => space,
        _ => extent,
    }
}

impl Tree {
    /// This tree with its top-left corner moved to `position`.
    pub open spec fn moved_to(self, position: Point) -> Tree {
        Tree {
            bounds: Rectangle { x: position.x, y: position.y, width: self.bounds.width, height: self.bounds.height },
            children: self.children,
        }
    }

    /// This tree aligned within `space` along both axes.
    pub open spec fn aligned(self, horizontal: Alignment, vertical: Alignment, space: Size) -> Tree {
        Tree {
            bounds: Rectangle {
                x: align_position(horizontal, self.bounds.x, self.bounds.width, space.width),
                y: align_position(vertical, self.bounds.y, self.bounds.height, space.height),
                width: align_extent(horizontal, self.bounds.width, space.width),
                height: align_extent(vertical, self.bounds.height, space.height),
            },
            children: self.children,
        }
    }

    /// The extent of the tree.
    pub open spec fn size(self) -> Size {
        Size { width: self.bounds.width, height: self.bounds.height }
    }
}

/// The models of the nodes of `nodes`, in order.
pub open spec fn trees(nodes: Seq<Node>) -> Seq<Tree> {
    Seq::new(nodes.len(), |i: int| nodes[i]@)
}

fn align_axis(alignment: Alignment, position: i32, extent: u32, space: u32) -> (r: (i32, u32))
    ensures
        r.0 == align_position(alignment, position, extent, space),
        r.1 == align_extent(alignment, extent, space),
{
    match alignment {
        Alignment::Start => (position, extent),
        Alignment::Center => {
            let slack: i64 = space as i64 - extent as i64;
            (to_i32(position as i64 + half(slack)), extent)
        },
        Alignment::End => (to_i32(position as i64 + (space as i64 - extent as i64)), extent),
        Alignment::Fill => (position, space),
    }
}

impl Node {
    /// A node of the given size, without children, at the origin.
    pub fn new(size: Size) -> (node: Node)
        ensures
            node@ == (Tree {
                bounds: Rectangle { x: 0, y: 0, width: size.width, height: size.height },
                children: Seq::empty(),
            }),
    {
        let node = Node {
            bounds: Rectangle { x: 0, y: 0, width: size.width, height: size.height },
            children: Vec::new(),
        };
        assert(node@.children =~= Seq::empty());
        node
    }

    /// A node of the given size at the origin, with the given children.
    pub fn with_children(size: Size, children: Vec<Node>) -> (node: Node)
        ensures
            node@ == (Tree {
                bounds: Rectangle { x: 0, y: 0, width: size.width, height: size.height },
                children: trees(children@),
            }),
    {
        let ghost models = trees(children@);
        let node = Node {
            bounds: Rectangle { x: 0, y: 0, width: size.width, height: size.height },
            children,
        };
        assert(node@.children =~= models);
        node
    }

    /// The size of the node.
    pub fn size(&self) -> (size: Size)
        ensures
            size == self@.size(),
    {
        Size { width: self.bounds.width, height: self.bounds.height }
    }

    /// The bounds of the node, relative to its parent.
    pub fn bounds(&self) -> (bounds: Rectangle)
        ensures
            bounds == self@.bounds,
    {
        self.bounds
    }

    /// The children of the node, first to last.
    pub fn children(&self) -> (children: &Vec<Node>)
        ensures
            trees(children@) == self@.children,
    {
        assert(trees(self.children@) =~= self@.children);
        &self.children
    }

    /// Aligns the node within `space` along both axes. Centering and moving
    /// to the end shift it; filling stretches it.
    pub fn align(&mut self, horizontal_alignment: Alignment, vertical_alignment: Alignment, space: Size)
        ensures
            final(self)@ == old(self)@.aligned(horizontal_alignment, vertical_alignment, space),
    {
        let (x, width) = align_axis(horizontal_alignment, self.bounds.x, self.bounds.width, space.width);
        let (y, height) = align_axis(vertical_alignment, self.bounds.y, self.bounds.height, space.height);
        self.bounds = Rectangle { x, y, width, height };
        assert(self@.children =~= old(self)@.children);
    }

    /// Moves the top-left corner of the node to `position`.
    pub fn move_to(&mut self, position: Point)
        ensures
            final(self)@ == old(self)@.moved_to(position),
    {
        self.bounds = Rectangle { x: position.x, y: position.y, width: self.bounds.width, height: self.bounds.height };
        assert(self@.children =~= old(self)@.children);
    }
}

} // verus!
