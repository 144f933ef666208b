//! The foreign submesh record, modeled as owned values, and the owned mesh
//! the conversion layer produces.

use super::face::{aiFace, face_ok};
use super::vector3::{aiVector2D, aiVector3D};
use vstd::prelude::*;

verus! {

/// Opaque foreign record kind: a vertex color.  The conversion layer never
/// reads one; the boundary names it only behind pointers.
pub struct aiColor4D {
    pub dummy: i32,
}

/// Opaque foreign record kind: a bone. Never read here.
pub struct aiBone {
    pub dummy: i32,
}

/// Opaque foreign record kind: a counted string. Never read here.
pub struct aiString {
    pub dummy: i32,
}

/// Opaque foreign record kind: an attachment mesh. Never read here.
pub struct aiAnimMesh {
    pub dummy: i32,
}

/// Opaque foreign record kind: an axis-aligned bounding box. Never read
/// here.
pub struct aiAABB {
    pub dummy: i32,
}

/// One submesh of the foreign scene, as owned values.
///
/// Every (pointer, count) pair of the foreign record is one vector here,
/// read together at the boundary; a nullable per-vertex array is an
/// `Option`.  Of the eight UV channel slots only channel 0 is consumed by
/// the conversion layer.
pub struct aiMesh {
    /// Vertex positions; always present.  Its length is the submesh's
    /// vertex count.
    pub mVertices: Vec<aiVector3D>,
    /// Vertex normals, absent when the foreign record's pointer is null.
    /// Like-sized with the positions when present.
    pub mNormals: Option<Vec<aiVector3D>>,
    /// The eight UV channel slots; an absent slot is a null pointer in the
    /// foreign record.  Each present channel is like-sized with the
    /// positions.
    pub mTextureCoords: [Option<Vec<aiVector3D>>; 8],
    /// The faces; each carries its own index count.
    pub mFaces: Vec<aiFace>,
}

impl aiMesh {
    /// The submesh's vertex count: the length of every per-vertex array.
    pub open spec fn vertex_count(self) -> int {
        self.mVertices@.len() as int
    }

    /// A submesh fit for conversion: every face is a triangle whose
    /// indices lie below the vertex count (what the foreign triangulation
    /// step guarantees), and every present per-vertex array is like-sized
    /// with the positions.
    pub open spec fn wf(self) -> bool {
        &&& forall|i: int|
            0 <= i < self.mFaces@.len() ==> face_ok(#[trigger] self.mFaces@[i], self.vertex_count())
        &&& (self.mNormals matches Some(n) ==> n@.len() == self.mVertices@.len())
        &&& forall|c: int|
            0 <= c < 8 ==> (#[trigger] self.mTextureCoords@[c] matches Some(u) ==> u@.len()
                == self.mVertices@.len())
    }

    /// The first UV channel, if the foreign record has one.  The rest of
    /// the crate reads no other slot.
    pub fn first_uv_channel(&self) -> (r: &Option<Vec<aiVector3D>>)
        ensures
            *r == self.mTextureCoords@[0],
    {
        vstd::array::array_index_get(&self.mTextureCoords, 0)
    }
}

/// A triangle of the owned output mesh: three vertex indices into the
/// mesh's own vertex arrays.
#[derive(Copy, Clone, PartialEq, Eq, Structural, Debug)]
pub struct MeshFace {
    pub a: u32,
    pub b: u32,
    pub c: u32,
}

impl MeshFace {
    /// A triangle from its three vertex indices.
    pub fn new(a: u32, b: u32, c: u32) -> (r: Self)
        ensures
            r == (MeshFace { a, b, c }),
    {
        MeshFace { a, b, c }
    }
}

/// The owned output mesh.  It has no remaining tie to the foreign scene:
/// the caller owns it alone.
pub struct Mesh {
    /// Vertex positions; required.
    pub points: Vec<aiVector3D>,
    /// Vertex normals: present or absent for the whole mesh, never
    /// partial.
    pub normals: Option<Vec<aiVector3D>>,
    /// The triangles, indices into this mesh's own vertex arrays.
    pub faces: Vec<MeshFace>,
    /// 2D UV coordinates: present or absent for the whole mesh, never
    /// partial.
    pub uvcoords: Option<Vec<aiVector2D>>,
}

impl Mesh {
    /// The output invariant: every face index lies strictly below the
    /// vertex count, and every present per-vertex array is like-sized
    /// with the positions.
    pub open spec fn wf(self) -> bool {
        &&& forall|i: int|
            0 <= i < self.faces@.len() ==> ((#[trigger] self.faces@[i]).a as int)
                < self.points@.len() && (self.faces@[i].b as int) < self.points@.len() && (
            self.faces@[i].c as int) < self.points@.len()
        &&& (self.normals matches Some(n) ==> n@.len() == self.points@.len())
        &&& (self.uvcoords matches Some(u) ==> u@.len() == self.points@.len())
    }
}

} // verus!
