//! Layout: size limits, positioned nodes and the flex algorithm.
use vstd::prelude::*;

use crate::layout::node::Node;
use crate::point::Point;
use crate::rectangle::Rectangle;
use crate::units::{clamp_i32, to_i32};
use crate::vector::Vector;

pub mod limits;
pub mod node;
pub mod containment;
pub mod flex;
pub mod item;

verus! {

/// A node seen from the root of its tree: the node, and the absolute position
/// of its top-left corner.
#[derive(Debug, Clone, Copy)]
pub struct Layout<'a> {
    /// The absolute position of the node.
    pub position: Point,
    /// The node itself, positioned relative to its parent.
    pub node: &'a Node,
}

impl<'a> Layout<'a> {
    /// The layout of `node` when its parent's top-left corner is at `offset`.
    pub open spec fn with_offset_spec(offset: Vector, node: &'a Node) -> Layout<'a> {
        Layout {
            position: Point { x: clamp_i32(node.bounds.x + offset.x), y: clamp_i32(node.bounds.y + offset.y) },
            node,
        }
    }

    /// The absolute bounds of the node: its own extent at the layout's
    /// position.
    pub open spec fn bounds_spec(self) -> Rectangle {
        Rectangle {
            x: self.position.x,
            y: self.position.y,
            width: self.node.bounds.width,
            height: self.node.bounds.height,
        }
    }

    /// The number of children of the node.
    pub open spec fn len(self) -> nat {
        self.node.children@.len()
    }

    /// The layout of the `i`-th child of the node.
    pub open spec fn child_spec(self, i: int) -> Layout<'a> {
        Layout::with_offset_spec(Vector { x: self.position.x, y: self.position.y }, &self.node.children@[i])
    }

    /// The layout of a root node.
    pub fn new(node: &'a Node) -> (layout: Layout<'a>)
        ensures
            layout == Layout::with_offset_spec(Vector { x: 0, y: 0 }, node),
    {
        Layout::with_offset(Vector { x: 0, y: 0 }, node)
    }

    /// The layout of `node` when its parent's top-left corner is at `offset`.
    pub fn with_offset(offset: Vector, node: &'a Node) -> (layout: Layout<'a>)
        ensures
            layout == Layout::with_offset_spec(offset, node),
    {
        Layout {
            position: Point {
                x: to_i32(node.bounds.x as i64 + offset.x as i64),
                y: to_i32(node.bounds.y as i64 + offset.y as i64),
            },
            node,
        }
    }

    /// The absolute position of the node.
    pub fn position(&self) -> (position: Point)
        ensures
            position == self.position,
    {
        self.position
    }

    /// The absolute bounds of the node.
    pub fn bounds(&self) -> (bounds: Rectangle)
        ensures
            bounds == self.bounds_spec(),
    {
        Rectangle {
            x: self.position.x,
            y: self.position.y,
            width: self.node.bounds.width,
            height: self.node.bounds.height,
        }
    }

    /// The number of children of the node.
    pub fn child_count(&self) -> (n: usize)
        ensures
            n == self.len(),
    {
        self.node.children.len()
    }

    /// The layout of the `i`-th child of the node.
    pub fn child(&self, i: usize) -> (layout: Layout<'a>)
        requires
            i < self.len(),
        ensures
            layout == self.child_spec(i as int),
    {
        Layout::with_offset(Vector { x: self.position.x, y: self.position.y }, &self.node.children[i])
    }

    /// The layouts of the children of the node, first to last.
    pub fn children(self) -> (layouts: Vec<Layout<'a>>)
        ensures
            layouts@.len() == self.len(),
            forall|i: int| 0 <= i < self.len() ==> layouts@[i] == self.child_spec(i),
    {
        let mut layouts: Vec<Layout<'a>> = Vec::new();
        let mut i: usize = 0;
        while i < self.node.children.len()
            invariant
                i <= self.node.children.len(),
                layouts@.len() == i,
                forall|j: int| 0 <= j < i ==> layouts@[j] == self.child_spec(j),
            decreases self.node.children.len() - i,
        {
            let child = self.child(i);
            layouts.push(child);
            i += 1;
        }
        layouts
    }
}

} // verus!
