//! Owned, memory-safe model of the foreign scene, and the owned mesh the
//! conversion layer produces from it.
//!
//! The foreign library describes a scene through counted pointer arrays.
//! At the boundary each (pointer, count) pair becomes one owned vector, a
//! nullable array becomes an `Option`, and the record kinds the conversion
//! layer never reads stay behind opaque placeholder types.

mod face;
mod mesh;
mod scene;
mod vector3;

pub use face::{aiFace, face_ok};
pub use mesh::{aiAABB, aiAnimMesh, aiBone, aiColor4D, aiMesh, aiString, Mesh, MeshFace};
pub use scene::{
    aiAnimation, aiCamera, aiLight, aiMaterial, aiMetadata, aiNode, aiScene, aiTexture,
};
pub use vector3::{aiVector2D, aiVector3D, spec_zero2, spec_zero3};
