//! Conversion layer for a foreign 3D-asset import library.
//!
//! The foreign library hands back a scene as a graph of counted pointer
//! arrays.  This crate models that scene as owned, memory-safe values and
//! proves the two traversals over it: flattening every submesh into one
//! merged `Mesh` (rebasing face indices), and converting each submesh into
//! a `Mesh` of its own.  It also provides the bitset of import
//! post-processing options that callers hand to the foreign importer.
#![allow(non_camel_case_types)]
#![allow(non_snake_case)]

mod convert;
mod data;
mod postprocess;

pub use convert::{
    all_indices, bounds_ok, check_scene, face_index_range, lemma_merged_faces_in_bounds,
    lemma_merged_lens, merge_scene, merged_faces, merged_normals, merged_points, merged_uvs,
    normals_of, rebased_faces, scene_convertible, scene_to_mesh, scene_to_meshes, split_scene,
    submesh_converted, uv0_of, vertex_total,
};
pub use data::{
    aiAABB, aiAnimMesh, aiAnimation, aiBone, aiCamera, aiColor4D, aiFace, aiLight, aiMaterial,
    aiMesh, aiMetadata, aiNode, aiScene, aiString, aiTexture, aiVector2D, aiVector3D, face_ok,
    spec_zero2, spec_zero3, Mesh, MeshFace,
};
pub use postprocess::{
    aiPostProcessSteps, bit_set, flag_at, flag_index, flag_mask, flag_name_spec, flags_present_spec,
    flags_upto, joined, lemma_union_absorb, lemma_union_comm_assoc, lemma_union_empty,
    lemma_union_listing, listing_spec, StepFlag,
};
