//! The vector components the foreign library hands over.
//!
//! The foreign arrays carry 3-component single-precision vectors.  The
//! conversion layer copies those components verbatim and never computes on
//! them, so each component is held here as its raw 32-bit pattern; the
//! boundary turns a component into its pattern on the way in and back on
//! the way out.

use vstd::prelude::*;

verus! {

/// A 3-component vector of a foreign per-vertex array.  Each component is
/// the raw 32-bit pattern of one single-precision value, carried through
/// unchanged.
#[derive(Copy, Clone, PartialEq, Eq, Structural, Debug)]
pub struct aiVector3D {
    pub x: u32,
    pub y: u32,
    pub z: u32,
}

/// A 2-component vector: a UV coordinate after its third component is
/// dropped.
#[derive(Copy, Clone, PartialEq, Eq, Structural, Debug)]
pub struct aiVector2D {
    pub x: u32,
    pub y: u32,
}

impl aiVector3D {
    /// The first two components, the third dropped.
    pub open spec fn spec_xy(self) -> aiVector2D {
        aiVector2D { x: self.x, y: self.y }
    }

    /// Drops the third component, as the UV copy does.
    pub fn xy(self) -> (r: aiVector2D)
        ensures
            r == self.spec_xy(),
    {
        aiVector2D { x: self.x, y: self.y }
    }

    /// The all-zero vector, substituted when an optional channel is absent.
    pub fn zero() -> (r: Self)
        ensures
            r == spec_zero3(),
    {
        aiVector3D { x: 0, y: 0, z: 0 }
    }
}

impl aiVector2D {
    /// The all-zero coordinate, substituted when an optional channel is
    /// absent.
    pub fn zero() -> (r: Self)
        ensures
            r == spec_zero2(),
    {
        aiVector2D { x: 0, y: 0 }
    }
}

/// The all-zero 3-component vector.
pub open spec fn spec_zero3() -> aiVector3D {
    aiVector3D { x: 0, y: 0, z: 0 }
}

/// The all-zero 2-component vector.
pub open spec fn spec_zero2() -> aiVector2D {
    aiVector2D { x: 0, y: 0 }
}

} // verus!
