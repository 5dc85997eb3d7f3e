//! Triangle meshes.

use crate::fixed::ONE;
use crate::vector::{Vec3, Vec4};
use vstd::prelude::*;

verus! {

/// A corner of a triangle: a homogeneous position, a texture coordinate
/// (whose `z` is not used by default) and a normal.
#[derive(Clone, Copy, Debug, PartialEq, Eq, Structural)]
pub struct Vertex {
    pub position: Vec4,
    pub texture_coords: Vec3,
    pub normals: Vec3,
}

/// A triangle.
#[derive(Clone, Copy, Debug)]
pub struct Face {
    pub vertices: [Vertex; 3],
}

/// A named sequence of triangles.
pub struct Mesh {
    pub name: Option<String>,
    pub faces: Vec<Face>,
}

impl Mesh {
    pub fn new(name: Option<String>, faces: Vec<Face>) -> (mesh: Mesh)
        ensures
            mesh.name == name,
            mesh.faces == faces,
    {
        Mesh { name, faces }
    }
}

impl Face {
    pub fn new(vertices: [Vertex; 3]) -> (face: Face)
        ensures
            face.vertices == vertices,
    {
        Face { vertices }
    }
}

impl Vertex {
    /// The normal and the texture coordinate of a vertex that names none:
    /// the unit vector along `z`.
    pub open spec fn unit_z() -> Vec3 {
        Vec3 { x: 0, y: 0, z: ONE }
    }

    /// A vertex with a position and a texture coordinate; its normal points
    /// along `z`.
    pub fn from_pos_tex(position: Vec4, texture_coords: Vec3) -> (vertex: Vertex)
        ensures
            vertex == (Vertex { position, texture_coords, normals: Vertex::unit_z() }),
    {
        Vertex { position, texture_coords, normals: Vec3::new(0, 0, ONE) }
    }

    /// A vertex with a position only.
    pub fn from_pos(position: Vec4) -> (vertex: Vertex)
        ensures
            vertex == (Vertex {
                position,
                texture_coords: Vertex::unit_z(),
                normals: Vertex::unit_z(),
            }),
    {
        Vertex { position, texture_coords: Vec3::new(0, 0, ONE), normals: Vec3::new(0, 0, ONE) }
    }
}

/// What a mesh holds.
pub struct MeshView {
    pub name: Option<Seq<char>>,
    pub faces: Seq<Seq<Vertex>>,
}

/// What a name holds.
pub open spec fn name_view(name: Option<String>) -> Option<Seq<char>> {
    match name {
        Some(s) => Some(s@),
        None => None,
    }
}

impl View for Mesh {
    type V = MeshView;

    open spec fn view(&self) -> MeshView {
        MeshView {
            name: name_view(self.name),
            faces: Seq::new(self.faces@.len(), |f: int| self.faces@[f].vertices@),
        }
    }
}

} // verus!
