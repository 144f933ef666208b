//! The foreign scene record, modeled as owned values.

use super::mesh::aiMesh;
use vstd::prelude::*;

verus! {

/// Opaque foreign record kind: a node of the scene graph.  The conversion
/// layer never reads one; the boundary names it only behind pointers.
pub struct aiNode {
    pub dummy: i32,
}

/// Opaque foreign record kind: a material. Never read here.
pub struct aiMaterial {
    pub dummy: i32,
}

/// Opaque foreign record kind: an animation. Never read here.
pub struct aiAnimation {
    pub dummy: i32,
}

/// Opaque foreign record kind: an embedded texture. Never read here.
pub struct aiTexture {
    pub dummy: i32,
}

/// Opaque foreign record kind: a camera. Never read here.
pub struct aiCamera {
    pub dummy: i32,
}

/// Opaque foreign record kind: a light source. Never read here.
pub struct aiLight {
    pub dummy: i32,
}

/// Opaque foreign record kind: scene metadata. Never read here.
pub struct aiMetadata {
    pub dummy: i32,
}

/// The root of an imported scene, as owned values: its submeshes in the
/// foreign array's order.  The foreign record's count and pointer array
/// are read together at the boundary and become this one vector; the
/// record kinds the conversion layer never reads (nodes, materials,
/// animations, textures, lights, cameras, metadata) are not carried over.
pub struct aiScene {
    pub mMeshes: Vec<aiMesh>,
}

impl aiScene {
    /// A scene fit for conversion: every submesh is.
    pub open spec fn wf(self) -> bool {
        forall|j: int| 0 <= j < self.mMeshes@.len() ==> (#[trigger] self.mMeshes@[j]).wf()
    }
}

} // verus!
