//! Meshes of triangles.
use vstd::prelude::*;

use crate::color::Color;
use crate::point::Point;

verus! {

/// A vertex of a mesh.
#[derive(Debug, Clone, Copy, PartialEq, Eq, Structural)]
pub struct Vertex2D {
    /// Where the vertex lies.
    pub position: Point,
    /// The color of the vertex.
    pub color: Color,
}

/// A mesh: vertices, and the indices into them that make up the triangles,
/// three by three.
#[derive(Debug)]
pub struct Mesh2D {
    /// The vertices of the mesh.
    pub vertices: Vec<Vertex2D>,
    /// Indices into `vertices`; each three in a row are one triangle.
    pub indices: Vec<u32>,
}

/// The mathematical model of a [`Mesh2D`].
pub struct MeshView {
    /// The vertices of the mesh.
    pub vertices: Seq<Vertex2D>,
    /// The indices of the mesh.
    pub indices: Seq<u32>,
}

impl View for Mesh2D {
    type V = MeshView;

    open spec fn view(&self) -> MeshView {
        MeshView { vertices: self.vertices@, indices: self.indices@ }
    }
}

impl Mesh2D {
    /// A copy of the mesh.
    pub fn duplicate(&self) -> (copy: Mesh2D)
        ensures
            copy@ == self@,
    {
        let mut vertices: Vec<Vertex2D> = Vec::new();
        let mut i: usize = 0;
        while i < self.vertices.len()
            invariant
                i <= self.vertices.len(),
                vertices@ == self.vertices@.take(i as int),
            decreases self.vertices.len() - i,
        {
            vertices.push(self.vertices[i]);
            i += 1;
        }
        let mut indices: Vec<u32> = Vec::new();
        let mut j: usize = 0;
        while j < self.indices.len()
            invariant
                j <= self.indices.len(),
                indices@ == self.indices@.take(j as int),
            decreases self.indices.len() - j,
        {
            indices.push(self.indices[j]);
            j += 1;
        }
        assert(vertices@ =~= self.vertices@);
        assert(indices@ =~= self.indices@);
        Mesh2D { vertices, indices }
    }
}

} // verus!
