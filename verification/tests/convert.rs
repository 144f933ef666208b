use assimp::{
    aiFace, aiMesh, aiScene, aiVector3D, check_scene, face_index_range, merge_scene,
    scene_to_mesh, scene_to_meshes, split_scene,
};

fn v3(x: f32, y: f32, z: f32) -> aiVector3D {
    aiVector3D {
        x: x.to_bits(),
        y: y.to_bits(),
        z: z.to_bits(),
    }
}

fn no_uvs() -> [Option<Vec<aiVector3D>>; 8] {
    [None, None, None, None, None, None, None, None]
}

fn tri(a: u32, b: u32, c: u32) -> aiFace {
    aiFace {
        mIndices: vec![a, b, c],
    }
}

/// A submesh of `n` vertices at recognizable positions, with the given
/// faces, no normals and no UV channels.
fn bare_mesh(n: u32, faces: Vec<aiFace>) -> aiMesh {
    let mut pts = vec![];
    for i in 0..n {
        pts.push(v3(i as f32, 0.0, 0.0));
    }
    aiMesh {
        mVertices: pts,
        mNormals: None,
        mTextureCoords: no_uvs(),
        mFaces: faces,
    }
}

#[test]
fn flatten_counts_and_rebases_indices() {
    // submeshes of vertex counts [4, 6, 3], one face each
    let scene = aiScene {
        mMeshes: vec![
            bare_mesh(4, vec![tri(0, 1, 2)]),
            bare_mesh(6, vec![tri(0, 1, 2)]),
            bare_mesh(3, vec![tri(2, 0, 1)]),
        ],
    };
    assert!(check_scene(&scene));
    let m = merge_scene(&scene);
    assert_eq!(m.points.len(), 13);
    // submesh 2's local index 0 lands at the offset 4
    assert_eq!(m.faces[1].a, 4);
    // submesh 3's local index 2 lands at 10 + 2 = 12
    assert_eq!(m.faces[2].a, 12);
    assert_eq!(m.faces.len(), 3);
    // submesh order is kept: local face of submesh 1 is unchanged
    assert_eq!((m.faces[0].a, m.faces[0].b, m.faces[0].c), (0, 1, 2));
    assert_eq!((m.faces[1].a, m.faces[1].b, m.faces[1].c), (4, 5, 6));
    assert_eq!((m.faces[2].a, m.faces[2].b, m.faces[2].c), (12, 10, 11));
}

#[test]
fn flatten_concatenates_positions_in_order() {
    let scene = aiScene {
        mMeshes: vec![bare_mesh(2, vec![]), bare_mesh(3, vec![])],
    };
    let m = merge_scene(&scene);
    assert_eq!(m.points.len(), 5);
    assert_eq!(m.points[0], v3(0.0, 0.0, 0.0));
    assert_eq!(m.points[1], v3(1.0, 0.0, 0.0));
    // the second submesh's vertices follow the first's
    assert_eq!(m.points[2], v3(0.0, 0.0, 0.0));
    assert_eq!(m.points[4], v3(2.0, 0.0, 0.0));
    assert_eq!(m.faces.len(), 0);
}

#[test]
fn every_merged_face_index_is_below_the_vertex_count() {
    let scene = aiScene {
        mMeshes: vec![
            bare_mesh(4, vec![tri(0, 1, 2), tri(1, 2, 3)]),
            bare_mesh(6, vec![tri(3, 4, 5)]),
            bare_mesh(3, vec![tri(2, 0, 1)]),
        ],
    };
    let m = merge_scene(&scene);
    let vc = m.points.len() as u32;
    for f in &m.faces {
        assert!(f.a < vc && f.b < vc && f.c < vc);
    }
}

#[test]
fn every_split_face_index_is_below_its_own_vertex_count() {
    let scene = aiScene {
        mMeshes: vec![
            bare_mesh(4, vec![tri(0, 1, 3)]),
            bare_mesh(3, vec![tri(2, 0, 1)]),
        ],
    };
    for m in &split_scene(&scene) {
        let vc = m.points.len() as u32;
        for f in &m.faces {
            assert!(f.a < vc && f.b < vc && f.c < vc);
        }
    }
}

#[test]
fn absent_scene_converts_to_absent_results() {
    // the failure indicator of an acquisition that did not produce a scene
    let failed: Option<aiScene> = None;
    assert!(scene_to_mesh(&failed).is_none());
    assert!(scene_to_meshes(&failed).is_none());
}

#[test]
fn present_scene_converts_to_present_results() {
    let scene = Some(aiScene {
        mMeshes: vec![bare_mesh(3, vec![tri(0, 1, 2)])],
    });
    assert!(scene_to_mesh(&scene).is_some());
    assert!(scene_to_meshes(&scene).is_some());
}

#[test]
fn split_keeps_submesh_order_and_local_numbering() {
    let scene = aiScene {
        mMeshes: vec![
            bare_mesh(4, vec![tri(0, 1, 2)]),
            bare_mesh(6, vec![tri(0, 1, 2)]),
            bare_mesh(3, vec![tri(2, 0, 1)]),
        ],
    };
    let out = split_scene(&scene);
    // exactly one output mesh per submesh, in order
    assert_eq!(out.len(), 3);
    assert_eq!(out[0].points.len(), 4);
    assert_eq!(out[1].points.len(), 6);
    assert_eq!(out[2].points.len(), 3);
    // indices are local: no rebasing
    assert_eq!((out[1].faces[0].a, out[1].faces[0].b, out[1].faces[0].c), (0, 1, 2));
    assert_eq!((out[2].faces[0].a, out[2].faces[0].b, out[2].faces[0].c), (2, 0, 1));
}

#[test]
fn absent_normals_become_zero_vectors() {
    let scene = aiScene {
        mMeshes: vec![bare_mesh(2, vec![])],
    };
    let m = merge_scene(&scene);
    let normals = m.normals.expect("normals are always present on the output");
    assert_eq!(normals.len(), 2);
    assert_eq!(normals[0], v3(0.0, 0.0, 0.0));
    assert_eq!(normals[1], v3(0.0, 0.0, 0.0));
}

#[test]
fn present_normals_are_copied() {
    let mut sub = bare_mesh(2, vec![]);
    sub.mNormals = Some(vec![v3(0.0, 1.0, 0.0), v3(1.0, 0.0, 0.0)]);
    let scene = aiScene { mMeshes: vec![sub] };
    let m = merge_scene(&scene);
    let normals = m.normals.unwrap();
    assert_eq!(normals[0], v3(0.0, 1.0, 0.0));
    assert_eq!(normals[1], v3(1.0, 0.0, 0.0));
}

#[test]
fn uv_channel_zero_is_copied_and_its_third_component_dropped() {
    let mut sub = bare_mesh(2, vec![]);
    let mut uvs = no_uvs();
    uvs[0] = Some(vec![v3(0.25, 0.75, 9.0), v3(0.5, 0.125, 7.0)]);
    sub.mTextureCoords = uvs;
    let scene = aiScene { mMeshes: vec![sub] };
    let m = merge_scene(&scene);
    let tpt = m.uvcoords.expect("UV coordinates are always present on the output");
    assert_eq!(tpt.len(), 2);
    assert_eq!((tpt[0].x, tpt[0].y), (0.25f32.to_bits(), 0.75f32.to_bits()));
    assert_eq!((tpt[1].x, tpt[1].y), (0.5f32.to_bits(), 0.125f32.to_bits()));
}

#[test]
fn absent_uv_channel_becomes_zero_coordinates() {
    let scene = aiScene {
        mMeshes: vec![bare_mesh(2, vec![])],
    };
    let m = merge_scene(&scene);
    let tpt = m.uvcoords.unwrap();
    assert_eq!(tpt.len(), 2);
    assert_eq!((tpt[0].x, tpt[0].y), (0, 0));
}

#[test]
fn only_channel_zero_is_consumed() {
    let mut sub = bare_mesh(1, vec![]);
    let mut uvs = no_uvs();
    // a later channel alone does not feed the output
    uvs[3] = Some(vec![v3(0.5, 0.5, 0.0)]);
    sub.mTextureCoords = uvs;
    let scene = aiScene { mMeshes: vec![sub] };
    let m = merge_scene(&scene);
    let tpt = m.uvcoords.unwrap();
    assert_eq!((tpt[0].x, tpt[0].y), (0, 0));
}

#[test]
fn face_index_range_of_a_faceless_submesh_is_absent() {
    let sub = bare_mesh(5, vec![]);
    assert!(face_index_range(&sub).is_none());
}

#[test]
fn face_index_range_finds_the_extremes() {
    let sub = bare_mesh(9, vec![tri(3, 7, 5), tri(4, 2, 6), tri(8, 2, 4)]);
    assert_eq!(face_index_range(&sub), Some((2, 8)));
}

#[test]
fn check_scene_accepts_a_sound_scene() {
    let mut sub = bare_mesh(3, vec![tri(0, 1, 2)]);
    sub.mNormals = Some(vec![v3(0.0, 0.0, 1.0); 3]);
    let scene = aiScene { mMeshes: vec![sub] };
    assert!(check_scene(&scene));
}

#[test]
fn check_scene_rejects_an_out_of_range_face_index() {
    let scene = aiScene {
        mMeshes: vec![bare_mesh(3, vec![tri(0, 1, 3)])],
    };
    assert!(!check_scene(&scene));
}

#[test]
fn check_scene_rejects_a_face_that_is_no_triangle() {
    let scene = aiScene {
        mMeshes: vec![aiMesh {
            mVertices: vec![v3(0.0, 0.0, 0.0); 4],
            mNormals: None,
            mTextureCoords: no_uvs(),
            mFaces: vec![aiFace {
                mIndices: vec![0, 1, 2, 3],
            }],
        }],
    };
    assert!(!check_scene(&scene));
}

#[test]
fn check_scene_rejects_mismatched_normals() {
    let mut sub = bare_mesh(3, vec![]);
    sub.mNormals = Some(vec![v3(0.0, 0.0, 1.0); 2]);
    let scene = aiScene { mMeshes: vec![sub] };
    assert!(!check_scene(&scene));
}

#[test]
fn check_scene_rejects_a_mismatched_uv_channel() {
    let mut sub = bare_mesh(3, vec![]);
    let mut uvs = no_uvs();
    uvs[0] = Some(vec![v3(0.0, 0.0, 0.0); 2]);
    sub.mTextureCoords = uvs;
    let scene = aiScene { mMeshes: vec![sub] };
    assert!(!check_scene(&scene));
}

#[test]
fn an_empty_scene_flattens_to_an_empty_mesh() {
    let scene = aiScene { mMeshes: vec![] };
    assert!(check_scene(&scene));
    let m = merge_scene(&scene);
    assert_eq!(m.points.len(), 0);
    assert_eq!(m.faces.len(), 0);
    assert_eq!(split_scene(&scene).len(), 0);
}
