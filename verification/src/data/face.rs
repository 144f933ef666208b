//! One face of a foreign submesh.

use vstd::prelude::*;

verus! {

/// A single face, referring to vertices of its owning submesh by index.
/// The foreign record carries its own index count (arity); after the
/// triangulation step every face has exactly three indices.
#[derive(Clone, PartialEq, Eq, Debug)]
pub struct aiFace {
    pub mIndices: Vec<u32>,
}

/// A face fit for conversion against a submesh of `vc` vertices: exactly
/// three indices, each strictly below the vertex count.
pub open spec fn face_ok(f: aiFace, vc: int) -> bool {
    &&& f.mIndices@.len() == 3
    &&& (f.mIndices@[0] as int) < vc
    &&& (f.mIndices@[1] as int) < vc
    &&& (f.mIndices@[2] as int) < vc
}

} // verus!
