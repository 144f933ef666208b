//! The traversal that turns the modeled foreign scene into owned meshes.
//!
//! Two variants exist.  The flattened conversion walks the submeshes in
//! array order, copies their per-vertex data into one accumulated mesh,
//! and rebases each face's indices by the running vertex-index offset —
//! the prefix sum of the vertex counts of the submeshes before it.  The
//! per-submesh conversion performs the same copy but keeps one output
//! mesh per submesh, each with local indices starting at 0.
//!
//! An absent normals array or an absent first UV channel is substituted
//! by zero vectors, so an output mesh's optional channels are present for
//! the whole mesh, never partially.

use crate::data::{
    aiFace, aiMesh, aiScene, aiVector2D, aiVector3D, face_ok, spec_zero2, spec_zero3, Mesh,
    MeshFace,
};
use vstd::prelude::*;

verus! {

/// The total vertex count of the submeshes, the sum of their vertex
/// counts.
pub open spec fn vertex_total(ms: Seq<aiMesh>) -> int
    decreases ms.len(),
{
    if ms.len() == 0 {
        0
    } else {
        vertex_total(ms.drop_last()) + ms.last().mVertices@.len()
    }
}

/// The normals a submesh contributes: its normals array when present,
/// else one zero vector per vertex.
pub open spec fn normals_of(m: aiMesh) -> Seq<aiVector3D> {
    match m.mNormals {
        Some(n) => n@,
        None => Seq::new(m.mVertices@.len(), |i: int| spec_zero3()),
    }
}

/// The UV coordinates a submesh contributes: its first UV channel with
/// each third component dropped when the channel is present, else one
/// zero coordinate per vertex.
pub open spec fn uv0_of(m: aiMesh) -> Seq<aiVector2D> {
    match m.mTextureCoords@[0] {
        Some(u) => Seq::new(u@.len(), |i: int| u@[i].spec_xy()),
        None => Seq::new(m.mVertices@.len(), |i: int| spec_zero2()),
    }
}

/// A submesh's faces as triangles, each index raised by `base`.
pub open spec fn rebased_faces(m: aiMesh, base: int) -> Seq<MeshFace> {
    Seq::new(
        m.mFaces@.len(),
        |i: int|
            MeshFace {
                a: (m.mFaces@[i].mIndices@[0] + base) as u32,
                b: (m.mFaces@[i].mIndices@[1] + base) as u32,
                c: (m.mFaces@[i].mIndices@[2] + base) as u32,
            },
    )
}

/// The positions of the flattened mesh: the submeshes' position arrays
/// concatenated in array order.
pub open spec fn merged_points(ms: Seq<aiMesh>) -> Seq<aiVector3D>
    decreases ms.len(),
{
    if ms.len() == 0 {
        Seq::empty()
    } else {
        merged_points(ms.drop_last()) + ms.last().mVertices@
    }
}

/// The normals of the flattened mesh.
pub open spec fn merged_normals(ms: Seq<aiMesh>) -> Seq<aiVector3D>
    decreases ms.len(),
{
    if ms.len() == 0 {
        Seq::empty()
    } else {
        merged_normals(ms.drop_last()) + normals_of(ms.last())
    }
}

/// The UV coordinates of the flattened mesh.
pub open spec fn merged_uvs(ms: Seq<aiMesh>) -> Seq<aiVector2D>
    decreases ms.len(),
{
    if ms.len() == 0 {
        Seq::empty()
    } else {
        merged_uvs(ms.drop_last()) + uv0_of(ms.last())
    }
}

/// The faces of the flattened mesh: each submesh's faces rebased by the
/// total vertex count of the submeshes before it.
pub open spec fn merged_faces(ms: Seq<aiMesh>) -> Seq<MeshFace>
    decreases ms.len(),
{
    if ms.len() == 0 {
        Seq::empty()
    } else {
        merged_faces(ms.drop_last()) + rebased_faces(ms.last(), vertex_total(ms.drop_last()))
    }
}

/// What the per-submesh conversion owes for one submesh: the positions
/// copied, the faces as local triangles, and both optional channels
/// present, filled from the submesh or by zeros.
pub open spec fn submesh_converted(m: aiMesh, out: Mesh) -> bool {
    &&& out.points@ == m.mVertices@
    &&& out.faces@ == rebased_faces(m, 0)
    &&& out.normals matches Some(n) && n@ == normals_of(m)
    &&& out.uvcoords matches Some(u) && u@ == uv0_of(m)
}

/// A vertex total is a sum of array lengths, so it is never negative.
proof fn lemma_vertex_total_nonneg(ms: Seq<aiMesh>)
    ensures
        vertex_total(ms) >= 0,
    decreases ms.len(),
{
    if ms.len() > 0 {
        lemma_vertex_total_nonneg(ms.drop_last());
    }
}

/// Extending a prefix by one submesh adds that submesh's vertex count.
proof fn lemma_vertex_total_take_succ(ms: Seq<aiMesh>, j: int)
    requires
        0 <= j < ms.len(),
    ensures
        vertex_total(ms.take(j + 1)) == vertex_total(ms.take(j)) + ms[j].mVertices@.len(),
{
    assert(ms.take(j + 1).drop_last() =~= ms.take(j));
    assert(ms.take(j + 1).last() == ms[j]);
}

/// A prefix's vertex total never exceeds the whole scene's.
proof fn lemma_vertex_total_prefix(ms: Seq<aiMesh>, j: int)
    requires
        0 <= j <= ms.len(),
    ensures
        vertex_total(ms.take(j)) <= vertex_total(ms),
    decreases ms.len() - j,
{
    if j == ms.len() {
        assert(ms.take(j) =~= ms);
    } else {
        lemma_vertex_total_take_succ(ms, j);
        lemma_vertex_total_prefix(ms, j + 1);
    }
}

/// Copies a submesh's vertex positions.
fn positions_vec(m: &aiMesh) -> (r: Vec<aiVector3D>)
    ensures
        r@ == m.mVertices@,
{
    let mut r: Vec<aiVector3D> = Vec::new();
    for i in 0..m.mVertices.len()
        invariant
            r@.len() == i,
            forall|k: int| 0 <= k < i ==> r@[k] == m.mVertices@[k],
    {
        r.push(m.mVertices[i]);
    }
    proof {
        assert(r@ =~= m.mVertices@);
    }
    r
}

/// Copies a submesh's normals, or fills in zero vectors when the foreign
/// record has none.
fn normals_vec(m: &aiMesh) -> (r: Vec<aiVector3D>)
    requires
        m.wf(),
    ensures
        r@ == normals_of(*m),
        r@.len() == m.mVertices@.len(),
{
    let mut r: Vec<aiVector3D> = Vec::new();
    match &m.mNormals {
        Some(n) => {
            for i in 0..n.len()
                invariant
                    r@.len() == i,
                    forall|k: int| 0 <= k < i ==> r@[k] == n@[k],
            {
                r.push(n[i]);
            }
            proof {
                assert(r@ =~= normals_of(*m));
            }
        },
        None => {
            for i in 0..m.mVertices.len()
                invariant
                    r@.len() == i,
                    forall|k: int| 0 <= k < i ==> r@[k] == spec_zero3(),
            {
                r.push(aiVector3D::zero());
            }
            proof {
                assert(r@ =~= normals_of(*m));
            }
        },
    }
    r
}

/// Copies the first two components of each coordinate of a submesh's
/// first UV channel, or fills in zero coordinates when the channel is
/// absent.
fn uvs_vec(m: &aiMesh) -> (r: Vec<aiVector2D>)
    requires
        m.wf(),
    ensures
        r@ == uv0_of(*m),
        r@.len() == m.mVertices@.len(),
{
    let mut r: Vec<aiVector2D> = Vec::new();
    match m.first_uv_channel() {
        Some(u) => {
            for i in 0..u.len()
                invariant
                    r@.len() == i,
                    forall|k: int| 0 <= k < i ==> r@[k] == u@[k].spec_xy(),
            {
                r.push(u[i].xy());
            }
            proof {
                assert(r@ =~= uv0_of(*m));
            }
        },
        None => {
            for i in 0..m.mVertices.len()
                invariant
                    r@.len() == i,
                    forall|k: int| 0 <= k < i ==> r@[k] == spec_zero2(),
            {
                r.push(aiVector2D::zero());
            }
            proof {
                assert(r@ =~= uv0_of(*m));
            }
        },
    }
    r
}

/// Emits a submesh's faces as triangles with each index raised by `base`.
/// A zero base never overflows, since the local indices are 32-bit
/// already; a positive base must keep the rebased index space within
/// 32 bits.
fn faces_vec(m: &aiMesh, base: u32) -> (r: Vec<MeshFace>)
    requires
        m.wf(),
        base == 0 || base + m.mVertices@.len() <= u32::MAX,
    ensures
        r@ == rebased_faces(*m, base as int),
{
    let mut r: Vec<MeshFace> = Vec::new();
    for i in 0..m.mFaces.len()
        invariant
            m.wf(),
            base == 0 || base + m.mVertices@.len() <= u32::MAX,
            r@.len() == i,
            forall|k: int| 0 <= k < i ==> r@[k] == rebased_faces(*m, base as int)[k],
    {
        let f = &m.mFaces[i];
        assert(face_ok(m.mFaces@[i as int], m.vertex_count()));
        let a = f.mIndices[0] + base;
        let b = f.mIndices[1] + base;
        let c = f.mIndices[2] + base;
        r.push(MeshFace::new(a, b, c));
    }
    proof {
        assert(r@ =~= rebased_faces(*m, base as int));
    }
    r
}

/// A scene the flattened conversion accepts: every submesh fit for
/// conversion, and the merged index space within 32 bits (the width of a
/// foreign vertex index).
pub open spec fn scene_convertible(s: aiScene) -> bool {
    &&& s.wf()
    &&& vertex_total(s.mMeshes@) <= u32::MAX
}

/// The flattened mesh is as long as the scene's vertex total, in every
/// per-vertex channel.
pub proof fn lemma_merged_lens(ms: Seq<aiMesh>)
    requires
        forall|j: int| 0 <= j < ms.len() ==> (#[trigger] ms[j]).wf(),
    ensures
        merged_points(ms).len() == vertex_total(ms),
        merged_normals(ms).len() == vertex_total(ms),
        merged_uvs(ms).len() == vertex_total(ms),
    decreases ms.len(),
{
    if ms.len() > 0 {
        let pre = ms.drop_last();
        assert(forall|j: int| 0 <= j < pre.len() ==> (#[trigger] pre[j]).wf()) by {
            assert(forall|j: int| 0 <= j < pre.len() ==> pre[j] == ms[j]);
        }
        lemma_merged_lens(pre);
        assert(ms.last().wf());
        assert(ms.last() == ms[ms.len() - 1]);
    }
}

/// Every face index of the flattened mesh lies strictly below the scene's
/// vertex total: the rebased local indices stay within the vertices of
/// their own submesh, whose block ends at the next submesh's offset.
pub proof fn lemma_merged_faces_in_bounds(ms: Seq<aiMesh>)
    requires
        forall|j: int| 0 <= j < ms.len() ==> (#[trigger] ms[j]).wf(),
        vertex_total(ms) <= u32::MAX,
    ensures
        forall|k: int|
            0 <= k < merged_faces(ms).len() ==> ((#[trigger] merged_faces(ms)[k]).a as int)
                < vertex_total(ms) && (merged_faces(ms)[k].b as int) < vertex_total(ms) && (
            merged_faces(ms)[k].c as int) < vertex_total(ms),
    decreases ms.len(),
{
    if ms.len() > 0 {
        let pre = ms.drop_last();
        let m = ms.last();
        let base = vertex_total(pre);
        assert(forall|j: int| 0 <= j < pre.len() ==> (#[trigger] pre[j]).wf()) by {
            assert(forall|j: int| 0 <= j < pre.len() ==> pre[j] == ms[j]);
        }
        lemma_vertex_total_nonneg(pre);
        assert(m.wf()) by {
            assert(m == ms[ms.len() - 1]);
        }
        lemma_merged_faces_in_bounds(pre);
        let reb = rebased_faces(m, base);
        assert forall|k: int| 0 <= k < reb.len() implies ((#[trigger] reb[k]).a as int)
            < vertex_total(ms) && (reb[k].b as int) < vertex_total(ms) && (reb[k].c as int)
            < vertex_total(ms) by {
            assert(face_ok(m.mFaces@[k], m.vertex_count()));
        }
        assert forall|k: int| 0 <= k < merged_faces(ms).len() implies ((#[trigger] merged_faces(
            ms,
        )[k]).a as int) < vertex_total(ms) && (merged_faces(ms)[k].b as int) < vertex_total(ms) && (
        merged_faces(ms)[k].c as int) < vertex_total(ms) by {
            if k < merged_faces(pre).len() {
                assert(merged_faces(ms)[k] == merged_faces(pre)[k]);
            } else {
                assert(merged_faces(ms)[k] == reb[k - merged_faces(pre).len()]);
            }
        }
    }
}

/// Flattens every submesh of a successfully acquired scene into one
/// merged mesh, in submesh order, rebasing each face's indices by the
/// total vertex count of the submeshes before it.
pub fn merge_scene(scene: &aiScene) -> (m: Mesh)
    requires
        scene_convertible(*scene),
    ensures
        m.points@ == merged_points(scene.mMeshes@),
        m.faces@ == merged_faces(scene.mMeshes@),
        m.normals matches Some(n) && n@ == merged_normals(scene.mMeshes@),
        m.uvcoords matches Some(u) && u@ == merged_uvs(scene.mMeshes@),
        m.wf(),
{
    let ghost ms = scene.mMeshes@;
    let mut pts: Vec<aiVector3D> = Vec::new();
    let mut normals: Vec<aiVector3D> = Vec::new();
    let mut uvs: Vec<aiVector2D> = Vec::new();
    let mut faces: Vec<MeshFace> = Vec::new();
    let mut base: u32 = 0;
    for j in 0..scene.mMeshes.len()
        invariant
            ms == scene.mMeshes@,
            scene_convertible(*scene),
            pts@ == merged_points(ms.take(j as int)),
            normals@ == merged_normals(ms.take(j as int)),
            uvs@ == merged_uvs(ms.take(j as int)),
            faces@ == merged_faces(ms.take(j as int)),
            base as int == vertex_total(ms.take(j as int)),
    {
        let mesh = &scene.mMeshes[j];
        proof {
            assert(ms[j as int].wf());
            lemma_vertex_total_take_succ(ms, j as int);
            lemma_vertex_total_prefix(ms, j as int + 1);
            lemma_vertex_total_nonneg(ms.take(j as int));
        }
        let mut p = positions_vec(mesh);
        let mut n = normals_vec(mesh);
        let mut u = uvs_vec(mesh);
        let mut f = faces_vec(mesh, base);
        pts.append(&mut p);
        normals.append(&mut n);
        uvs.append(&mut u);
        faces.append(&mut f);
        base = base + mesh.mVertices.len() as u32;
        proof {
            assert(ms.take(j as int + 1).drop_last() =~= ms.take(j as int));
            assert(ms.take(j as int + 1).last() == ms[j as int]);
        }
    }
    proof {
        assert(ms.take(ms.len() as int) =~= ms);
        lemma_merged_lens(ms);
        lemma_merged_faces_in_bounds(ms);
    }
    Mesh { points: pts, normals: Some(normals), faces, uvcoords: Some(uvs) }
}

/// Converts each submesh of a successfully acquired scene into a mesh of
/// its own: one output per submesh, in submesh order, each with local
/// indices starting at 0.
pub fn split_scene(scene: &aiScene) -> (r: Vec<Mesh>)
    requires
        scene.wf(),
    ensures
        r@.len() == scene.mMeshes@.len(),
        forall|j: int|
            0 <= j < r@.len() ==> submesh_converted(scene.mMeshes@[j], #[trigger] r@[j]),
        forall|j: int| 0 <= j < r@.len() ==> (#[trigger] r@[j]).wf(),
{
    let mut r: Vec<Mesh> = Vec::new();
    for j in 0..scene.mMeshes.len()
        invariant
            scene.wf(),
            r@.len() == j,
            forall|k: int|
                0 <= k < j ==> submesh_converted(scene.mMeshes@[k], #[trigger] r@[k]),
            forall|k: int| 0 <= k < j ==> (#[trigger] r@[k]).wf(),
    {
        let mesh = &scene.mMeshes[j];
        proof {
            assert(scene.mMeshes@[j as int].wf());
        }
        let p = positions_vec(mesh);
        let n = normals_vec(mesh);
        let u = uvs_vec(mesh);
        let f = faces_vec(mesh, 0);
        let out = Mesh { points: p, normals: Some(n), faces: f, uvcoords: Some(u) };
        proof {
            assert forall|k: int| 0 <= k < out.faces@.len() implies ((#[trigger] out.faces@[k]).a
                as int) < out.points@.len() && (out.faces@[k].b as int) < out.points@.len() && (
            out.faces@[k].c as int) < out.points@.len() by {
                assert(face_ok(mesh.mFaces@[k], mesh.vertex_count()));
            }
        }
        r.push(out);
    }
    r
}

/// Converts the outcome of an acquisition, flattened: an absent scene —
/// the failure indicator — yields an absent mesh; a present one is merged.
pub fn scene_to_mesh(scene: &Option<aiScene>) -> (r: Option<Mesh>)
    requires
        scene matches Some(s) ==> scene_convertible(*s),
    ensures
        r is Some <==> scene is Some,
        scene matches Some(s) ==> (r matches Some(m) && m.points@ == merged_points(s.mMeshes@)
            && m.faces@ == merged_faces(s.mMeshes@) && (m.normals matches Some(n) && n@
            == merged_normals(s.mMeshes@)) && (m.uvcoords matches Some(u) && u@ == merged_uvs(
            s.mMeshes@,
        )) && m.wf()),
{
    match scene {
        Some(s) => Some(merge_scene(s)),
        None => None,
    }
}

/// Converts the outcome of an acquisition, per submesh: an absent scene —
/// the failure indicator — yields an absent result; a present one yields
/// one mesh per submesh, in order.
pub fn scene_to_meshes(scene: &Option<aiScene>) -> (r: Option<Vec<Mesh>>)
    requires
        scene matches Some(s) ==> s.wf(),
    ensures
        r is Some <==> scene is Some,
        scene matches Some(s) ==> (r matches Some(v) && v@.len() == s.mMeshes@.len() && (forall|
            j: int,
        |
            0 <= j < v@.len() ==> submesh_converted(s.mMeshes@[j], #[trigger] v@[j])) && (forall|
            j: int,
        | 0 <= j < v@.len() ==> (#[trigger] v@[j]).wf())),
{
    match scene {
        Some(s) => Some(split_scene(s)),
        None => None,
    }
}

/// Checks one submesh against its conversion invariant.
fn mesh_ok(m: &aiMesh) -> (r: bool)
    ensures
        r == m.wf(),
{
    let vc = m.mVertices.len();
    match &m.mNormals {
        Some(n) => {
            if n.len() != vc {
                return false;
            }
        },
        None => {},
    }
    for c in 0..8usize
        invariant
            vc == m.mVertices@.len(),
            forall|cc: int|
                0 <= cc < c ==> (#[trigger] m.mTextureCoords@[cc] matches Some(u) ==> u@.len()
                    == m.mVertices@.len()),
    {
        match vstd::array::array_index_get(&m.mTextureCoords, c) {
            Some(u) => {
                if u.len() != vc {
                    return false;
                }
            },
            None => {},
        }
    }
    for i in 0..m.mFaces.len()
        invariant
            vc == m.mVertices@.len(),
            forall|k: int| 0 <= k < i ==> face_ok(#[trigger] m.mFaces@[k], m.vertex_count()),
    {
        let f = &m.mFaces[i];
        if f.mIndices.len() != 3 {
            return false;
        }
        if f.mIndices[0] as usize >= vc || f.mIndices[1] as usize >= vc || f.mIndices[2] as usize
            >= vc {
            return false;
        }
    }
    true
}

/// Checks a scene, built at the boundary from foreign memory, against
/// everything the flattened conversion relies on: every submesh fit for
/// conversion and the merged index space within 32 bits.  Lets a caller
/// fail closed instead of converting a malformed scene.
pub fn check_scene(scene: &aiScene) -> (r: bool)
    ensures
        r == scene_convertible(*scene),
{
    let ghost ms = scene.mMeshes@;
    let mut total: u64 = 0;
    for j in 0..scene.mMeshes.len()
        invariant
            ms == scene.mMeshes@,
            forall|k: int| 0 <= k < j ==> (#[trigger] ms[k]).wf(),
            total as int == vertex_total(ms.take(j as int)),
            total <= u32::MAX,
    {
        if !mesh_ok(&scene.mMeshes[j]) {
            return false;
        }
        let vc = scene.mMeshes[j].mVertices.len();
        proof {
            lemma_vertex_total_take_succ(ms, j as int);
            lemma_vertex_total_prefix(ms, j as int + 1);
        }
        if vc as u64 > 0xFFFF_FFFFu64 {
            return false;
        }
        total = total + vc as u64;
        if total > 0xFFFF_FFFFu64 {
            return false;
        }
    }
    proof {
        assert(ms.take(ms.len() as int) =~= ms);
    }
    true
}

/// Every vertex index any face of the submesh refers to, in face order.
pub open spec fn all_indices(faces: Seq<aiFace>) -> Seq<u32>
    decreases faces.len(),
{
    if faces.len() == 0 {
        Seq::empty()
    } else {
        all_indices(faces.drop_last()) + faces.last().mIndices@
    }
}

/// Appending one face extends the index run by that face's indices.
proof fn lemma_all_indices_take_succ(fs: Seq<aiFace>, j: int)
    requires
        0 <= j < fs.len(),
    ensures
        all_indices(fs.take(j + 1)) == all_indices(fs.take(j)) + fs[j].mIndices@,
{
    assert(fs.take(j + 1).drop_last() =~= fs.take(j));
    assert(fs.take(j + 1).last() == fs[j]);
}

/// Every element of the run lies between the two bounds.
pub open spec fn bounds_ok(s: Seq<u32>, lo: u32, hi: u32) -> bool {
    forall|i: int| 0 <= i < s.len() ==> lo <= #[trigger] s[i] && s[i] <= hi
}

/// The smallest and largest vertex index any face of the submesh refers
/// to, a diagnostic value; absent when the submesh has no faces.
pub fn face_index_range(mesh: &aiMesh) -> (r: Option<(u32, u32)>)
    requires
        mesh.wf(),
    ensures
        r is None <==> mesh.mFaces@.len() == 0,
        r matches Some(p) ==> all_indices(mesh.mFaces@).contains(p.0) && all_indices(
            mesh.mFaces@,
        ).contains(p.1) && bounds_ok(all_indices(mesh.mFaces@), p.0, p.1),
{
    let ghost fs = mesh.mFaces@;
    if mesh.mFaces.len() == 0 {
        return None;
    }
    assert(face_ok(fs[0], mesh.vertex_count()));
    let f0 = &mesh.mFaces[0];
    let a0 = f0.mIndices[0];
    let b0 = f0.mIndices[1];
    let c0 = f0.mIndices[2];
    let mut mn: u32 = a0;
    let mut mx: u32 = a0;
    if b0 < mn {
        mn = b0;
    }
    if b0 > mx {
        mx = b0;
    }
    if c0 < mn {
        mn = c0;
    }
    if c0 > mx {
        mx = c0;
    }
    proof {
        let tri = fs[0].mIndices@;
        assert(all_indices(fs.take(0)) == Seq::<u32>::empty()) by {
            assert(fs.take(0).len() == 0);
        }
        lemma_all_indices_take_succ(fs, 0);
        assert(all_indices(fs.take(1)) =~= tri);
        assert(tri[0] == a0 && tri[1] == b0 && tri[2] == c0);
        assert(tri.contains(mn)) by {
            if mn == a0 {
                assert(tri[0] == mn);
            } else if mn == b0 {
                assert(tri[1] == mn);
            } else {
                assert(tri[2] == mn);
            }
        }
        assert(tri.contains(mx)) by {
            if mx == a0 {
                assert(tri[0] == mx);
            } else if mx == b0 {
                assert(tri[1] == mx);
            } else {
                assert(tri[2] == mx);
            }
        }
        assert(bounds_ok(tri, mn, mx)) by {
            assert forall|i: int| 0 <= i < tri.len() implies mn <= #[trigger] tri[i] && tri[i]
                <= mx by {
                assert(tri[i] == a0 || tri[i] == b0 || tri[i] == c0);
            }
        }
    }
    for j in 1..mesh.mFaces.len()
        invariant
            mesh.wf(),
            fs == mesh.mFaces@,
            fs.len() > 0,
            all_indices(fs.take(j as int)).contains(mn),
            all_indices(fs.take(j as int)).contains(mx),
            mn <= mx,
            bounds_ok(all_indices(fs.take(j as int)), mn, mx),
    {
        assert(face_ok(fs[j as int], mesh.vertex_count()));
        let f = &mesh.mFaces[j];
        let a = f.mIndices[0];
        let b = f.mIndices[1];
        let c = f.mIndices[2];
        let ghost old_mn = mn;
        let ghost old_mx = mx;
        if a < mn {
            mn = a;
        }
        if a > mx {
            mx = a;
        }
        if b < mn {
            mn = b;
        }
        if b > mx {
            mx = b;
        }
        if c < mn {
            mn = c;
        }
        if c > mx {
            mx = c;
        }
        proof {
            lemma_all_indices_take_succ(fs, j as int);
            let prev = all_indices(fs.take(j as int));
            let tri = fs[j as int].mIndices@;
            assert(all_indices(fs.take(j as int + 1)) == prev + tri);
            assert(tri[0] == a && tri[1] == b && tri[2] == c);
            // the running extremes lie inside the prefix walked so far
            assert((prev + tri).contains(mn)) by {
                vstd::seq_lib::lemma_seq_concat_contains_all_elements(prev, tri, mn);
                if mn != old_mn {
                    if mn == a {
                        assert(tri[0] == mn);
                    } else if mn == b {
                        assert(tri[1] == mn);
                    } else {
                        assert(tri[2] == mn);
                    }
                }
            }
            assert((prev + tri).contains(mx)) by {
                vstd::seq_lib::lemma_seq_concat_contains_all_elements(prev, tri, mx);
                if mx != old_mx {
                    if mx == a {
                        assert(tri[0] == mx);
                    } else if mx == b {
                        assert(tri[1] == mx);
                    } else {
                        assert(tri[2] == mx);
                    }
                }
            }
            assert(bounds_ok(prev + tri, mn, mx)) by {
                assert forall|i: int| 0 <= i < (prev + tri).len() implies mn <= #[trigger] (prev
                    + tri)[i] && (prev + tri)[i] <= mx by {
                    if i < prev.len() {
                        assert((prev + tri)[i] == prev[i]);
                        assert(old_mn <= prev[i] && prev[i] <= old_mx);
                    } else {
                        assert((prev + tri)[i] == tri[i - prev.len()]);
                        assert(tri[i - prev.len()] == a || tri[i - prev.len()] == b || tri[i
                            - prev.len()] == c);
                    }
                }
            }
        }
    }
    proof {
        assert(fs.take(fs.len() as int) =~= fs);
    }
    Some((mn, mx))
}

} // verus!
