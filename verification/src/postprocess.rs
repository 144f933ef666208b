//! The bitset of import post-processing options.
//!
//! Each named step occupies one bit of a 32-bit word.  A set of steps is
//! built by uniting single-step sets; membership is asked through `set`,
//! the subset test the rest of the crate uses.  A diagnostic listing
//! renders the named steps present, in declaration order.

use vstd::prelude::*;

verus! {

/// One named post-processing step of the foreign importer.
///
/// The declaration order below is the order of the bits (least significant
/// first) and the order in which the diagnostic listing names the steps.
#[derive(Copy, Clone, PartialEq, Eq, Structural, Debug)]
pub enum StepFlag {
    CalcTangentSpace,
    JoinIdenticalVertices,
    MakeLeftHanded,
    Triangulate,
    RemoveComponent,
    GenNormals,
    GenSmoothNormals,
    SplitLargeMeshes,
    PreTransformVertices,
    LimitBoneWeights,
    ValidateDataStructure,
    ImproveCacheLocality,
    RemoveRedundantMaterials,
    FixInfacingNormals,
    PopulateArmatureData,
    SortByPType,
    FindDegenerates,
    FindInvalidData,
    GenUVCoords,
    TransformUVCoords,
    FindInstances,
    OptimizeMeshes,
    OptimizeGraph,
    FlipUVs,
    FlipWindingOrder,
    SplitByBoneCount,
    Debone,
    GlobalScale,
    EmbedTextures,
    ForceGenNormals,
    DropNormals,
    GenBoundingBoxes,
}

/// The bit position of a step: its rank in declaration order.
pub open spec fn flag_index(f: StepFlag) -> u32 {
    match f {
        StepFlag::CalcTangentSpace => 0,
        StepFlag::JoinIdenticalVertices => 1,
        StepFlag::MakeLeftHanded => 2,
        StepFlag::Triangulate => 3,
        StepFlag::RemoveComponent => 4,
        StepFlag::GenNormals => 5,
        StepFlag::GenSmoothNormals => 6,
        StepFlag::SplitLargeMeshes => 7,
        StepFlag::PreTransformVertices => 8,
        StepFlag::LimitBoneWeights => 9,
        StepFlag::ValidateDataStructure => 10,
        StepFlag::ImproveCacheLocality => 11,
        StepFlag::RemoveRedundantMaterials => 12,
        StepFlag::FixInfacingNormals => 13,
        StepFlag::PopulateArmatureData => 14,
        StepFlag::SortByPType => 15,
        StepFlag::FindDegenerates => 16,
        StepFlag::FindInvalidData => 17,
        StepFlag::GenUVCoords => 18,
        StepFlag::TransformUVCoords => 19,
        StepFlag::FindInstances => 20,
        StepFlag::OptimizeMeshes => 21,
        StepFlag::OptimizeGraph => 22,
        StepFlag::FlipUVs => 23,
        StepFlag::FlipWindingOrder => 24,
        StepFlag::SplitByBoneCount => 25,
        StepFlag::Debone => 26,
        StepFlag::GlobalScale => 27,
        StepFlag::EmbedTextures => 28,
        StepFlag::ForceGenNormals => 29,
        StepFlag::DropNormals => 30,
        StepFlag::GenBoundingBoxes => 31,
    }
}

/// The single bit a step occupies in the 32-bit word.
pub open spec fn flag_mask(f: StepFlag) -> u32 {
    1u32 << flag_index(f)
}

/// The step at a given bit position, inverse of `flag_index`.
pub open spec fn flag_at(i: int) -> StepFlag {
    if i == 0 {
        StepFlag::CalcTangentSpace
    } else if i == 1 {
        StepFlag::JoinIdenticalVertices
    } else if i == 2 {
        StepFlag::MakeLeftHanded
    } else if i == 3 {
        StepFlag::Triangulate
    } else if i == 4 {
        StepFlag::RemoveComponent
    } else if i == 5 {
        StepFlag::GenNormals
    } else if i == 6 {
        StepFlag::GenSmoothNormals
    } else if i == 7 {
        StepFlag::SplitLargeMeshes
    } else if i == 8 {
        StepFlag::PreTransformVertices
    } else if i == 9 {
        StepFlag::LimitBoneWeights
    } else if i == 10 {
        StepFlag::ValidateDataStructure
    } else if i == 11 {
        StepFlag::ImproveCacheLocality
    } else if i == 12 {
        StepFlag::RemoveRedundantMaterials
    } else if i == 13 {
        StepFlag::FixInfacingNormals
    } else if i == 14 {
        StepFlag::PopulateArmatureData
    } else if i == 15 {
        StepFlag::SortByPType
    } else if i == 16 {
        StepFlag::FindDegenerates
    } else if i == 17 {
        StepFlag::FindInvalidData
    } else if i == 18 {
        StepFlag::GenUVCoords
    } else if i == 19 {
        StepFlag::TransformUVCoords
    } else if i == 20 {
        StepFlag::FindInstances
    } else if i == 21 {
        StepFlag::OptimizeMeshes
    } else if i == 22 {
        StepFlag::OptimizeGraph
    } else if i == 23 {
        StepFlag::FlipUVs
    } else if i == 24 {
        StepFlag::FlipWindingOrder
    } else if i == 25 {
        StepFlag::SplitByBoneCount
    } else if i == 26 {
        StepFlag::Debone
    } else if i == 27 {
        StepFlag::GlobalScale
    } else if i == 28 {
        StepFlag::EmbedTextures
    } else if i == 29 {
        StepFlag::ForceGenNormals
    } else if i == 30 {
        StepFlag::DropNormals
    } else {
        StepFlag::GenBoundingBoxes
    }
}

impl StepFlag {
    /// The bit position of this step.
    pub fn index(self) -> (i: u32)
        ensures
            i == flag_index(self),
            i < 32,
    {
        match self {
            StepFlag::CalcTangentSpace => 0,
            StepFlag::JoinIdenticalVertices => 1,
            StepFlag::MakeLeftHanded => 2,
            StepFlag::Triangulate => 3,
            StepFlag::RemoveComponent => 4,
            StepFlag::GenNormals => 5,
            StepFlag::GenSmoothNormals => 6,
            StepFlag::SplitLargeMeshes => 7,
            StepFlag::PreTransformVertices => 8,
            StepFlag::LimitBoneWeights => 9,
            StepFlag::ValidateDataStructure => 10,
            StepFlag::ImproveCacheLocality => 11,
            StepFlag::RemoveRedundantMaterials => 12,
            StepFlag::FixInfacingNormals => 13,
            StepFlag::PopulateArmatureData => 14,
            StepFlag::SortByPType => 15,
            StepFlag::FindDegenerates => 16,
            StepFlag::FindInvalidData => 17,
            StepFlag::GenUVCoords => 18,
            StepFlag::TransformUVCoords => 19,
            StepFlag::FindInstances => 20,
            StepFlag::OptimizeMeshes => 21,
            StepFlag::OptimizeGraph => 22,
            StepFlag::FlipUVs => 23,
            StepFlag::FlipWindingOrder => 24,
            StepFlag::SplitByBoneCount => 25,
            StepFlag::Debone => 26,
            StepFlag::GlobalScale => 27,
            StepFlag::EmbedTextures => 28,
            StepFlag::ForceGenNormals => 29,
            StepFlag::DropNormals => 30,
            StepFlag::GenBoundingBoxes => 31,
        }
    }

    /// The single bit this step occupies.
    pub fn mask(self) -> (m: u32)
        ensures
            m == flag_mask(self),
    {
        let i = self.index();
        1u32 << i
    }
}

/// Whether bit `i` of `v` is set.
pub open spec fn bit_set(v: u32, i: u32) -> bool {
    v & (1u32 << i) == (1u32 << i)
}

/// The steps named by the first `i` bits of `v`, in declaration order.
pub open spec fn flags_upto(v: u32, i: int) -> Seq<StepFlag>
    decreases i,
{
    if i <= 0 {
        Seq::empty()
    } else if bit_set(v, (i - 1) as u32) {
        flags_upto(v, i - 1).push(flag_at(i - 1))
    } else {
        flags_upto(v, i - 1)
    }
}

/// All steps present in `v`, in declaration order.
pub open spec fn flags_present_spec(v: u32) -> Seq<StepFlag> {
    flags_upto(v, 32)
}

/// The name a step carries in the diagnostic listing.
pub open spec fn flag_name_spec(f: StepFlag) -> Seq<char> {
    match f {
        StepFlag::CalcTangentSpace => "CalcTangentSpace"@,
        StepFlag::JoinIdenticalVertices => "JoinIdenticalVertices"@,
        StepFlag::MakeLeftHanded => "MakeLeftHanded"@,
        StepFlag::Triangulate => "Triangulate"@,
        StepFlag::RemoveComponent => "RemoveComponent"@,
        StepFlag::GenNormals => "GenNormals"@,
        StepFlag::GenSmoothNormals => "GenSmoothNormals"@,
        StepFlag::SplitLargeMeshes => "SplitLargeMeshes"@,
        StepFlag::PreTransformVertices => "PreTransformVertices"@,
        StepFlag::LimitBoneWeights => "LimitBoneWeights"@,
        StepFlag::ValidateDataStructure => "ValidateDataStructure"@,
        StepFlag::ImproveCacheLocality => "ImproveCacheLocality"@,
        StepFlag::RemoveRedundantMaterials => "RemoveRedundantMaterials"@,
        StepFlag::FixInfacingNormals => "FixInfacingNormals"@,
        StepFlag::PopulateArmatureData => "PopulateArmatureData"@,
        StepFlag::SortByPType => "SortByPType"@,
        StepFlag::FindDegenerates => "FindDegenerates"@,
        StepFlag::FindInvalidData => "FindInvalidData"@,
        StepFlag::GenUVCoords => "GenUVCoords"@,
        StepFlag::TransformUVCoords => "TransformUVCoords"@,
        StepFlag::FindInstances => "FindInstances"@,
        StepFlag::OptimizeMeshes => "OptimizeMeshes"@,
        StepFlag::OptimizeGraph => "OptimizeGraph"@,
        StepFlag::FlipUVs => "FlipUVs"@,
        StepFlag::FlipWindingOrder => "FlipWindingOrder"@,
        StepFlag::SplitByBoneCount => "SplitByBoneCount"@,
        StepFlag::Debone => "Debone"@,
        StepFlag::GlobalScale => "GlobalScale"@,
        StepFlag::EmbedTextures => "EmbedTextures"@,
        StepFlag::ForceGenNormals => "ForceGenNormals"@,
        StepFlag::DropNormals => "DropNormals"@,
        StepFlag::GenBoundingBoxes => "GenBoundingBoxes"@,
    }
}

/// The names of the given steps, joined by the listing separator.
pub open spec fn joined(s: Seq<StepFlag>) -> Seq<char>
    decreases s.len(),
{
    if s.len() == 0 {
        Seq::empty()
    } else if s.len() == 1 {
        flag_name_spec(s[0])
    } else {
        joined(s.drop_last()) + " | "@ + flag_name_spec(s.last())
    }
}

/// The diagnostic listing of a step word: the names of the steps present,
/// in declaration order, or the empty-set name when none is.
pub open spec fn listing_spec(v: u32) -> Seq<char> {
    if v == 0 {
        "None"@
    } else {
        joined(flags_present_spec(v))
    }
}

/// A set of requested post-processing steps: one bit per named step.
///
/// The empty set is the identity of `union`; `set` asks whether every step
/// of its argument is present.  No removal operation exists.
#[derive(Copy, Clone, PartialEq, Eq, Structural, Debug)]
pub struct aiPostProcessSteps {
    pub value: u32,
}

impl aiPostProcessSteps {
    /// The set with no steps requested.
    pub fn empty() -> (r: Self)
        ensures
            r.value == 0u32,
    {
        aiPostProcessSteps { value: 0 }
    }

    /// The set holding exactly one named step.
    pub fn of(flag: StepFlag) -> (r: Self)
        ensures
            r.value == flag_mask(flag),
    {
        aiPostProcessSteps { value: flag.mask() }
    }

    /// The union, at the specification level.
    pub open spec fn union_spec(self, rhs: Self) -> Self {
        aiPostProcessSteps { value: self.value | rhs.value }
    }

    /// The intersection, at the specification level.
    pub open spec fn intersect_spec(self, rhs: Self) -> Self {
        aiPostProcessSteps { value: self.value & rhs.value }
    }

    /// The union of two step sets: every step of either is requested.
    pub fn union(self, rhs: Self) -> (r: Self)
        ensures
            r == self.union_spec(rhs),
            r.value == self.value | rhs.value,
    {
        aiPostProcessSteps { value: self.value | rhs.value }
    }

    /// The intersection of two step sets.
    pub fn intersect(self, rhs: Self) -> (r: Self)
        ensures
            r == self.intersect_spec(rhs),
            r.value == self.value & rhs.value,
    {
        aiPostProcessSteps { value: self.value & rhs.value }
    }

    /// Whether this set is requested: every bit of `flag` is present here.
    pub open spec fn spec_set(self, flag: Self) -> bool {
        self.value & flag.value == flag.value
    }

    /// Asks whether every step of `flag` is present in this set.
    pub fn set(self, flag: Self) -> (r: bool)
        ensures
            r == self.spec_set(flag),
    {
        self.value & flag.value == flag.value
    }

    /// The raw 32-bit word handed to the foreign importer.
    pub fn bits(self) -> (r: u32)
        ensures
            r == self.value,
    {
        self.value
    }
}

impl Default for aiPostProcessSteps {
    /// The default set requests nothing.
    fn default() -> (r: Self)
        ensures
            r.value == 0u32,
    {
        aiPostProcessSteps { value: 0 }
    }
}

/// Relies on String::push_str of std: appends the given string slice onto
/// the end of the string.
pub assume_specification[ String::push_str ](s: &mut String, other: &str)
    ensures
        final(s)@ == old(s)@ + other@,
;

/// The step at bit position `i`, the executable inverse of `index`.
fn flag_of_index(i: u32) -> (f: StepFlag)
    requires
        i < 32,
    ensures
        f == flag_at(i as int),
{
    match i {
        0 => StepFlag::CalcTangentSpace,
        1 => StepFlag::JoinIdenticalVertices,
        2 => StepFlag::MakeLeftHanded,
        3 => StepFlag::Triangulate,
        4 => StepFlag::RemoveComponent,
        5 => StepFlag::GenNormals,
        6 => StepFlag::GenSmoothNormals,
        7 => StepFlag::SplitLargeMeshes,
        8 => StepFlag::PreTransformVertices,
        9 => StepFlag::LimitBoneWeights,
        10 => StepFlag::ValidateDataStructure,
        11 => StepFlag::ImproveCacheLocality,
        12 => StepFlag::RemoveRedundantMaterials,
        13 => StepFlag::FixInfacingNormals,
        14 => StepFlag::PopulateArmatureData,
        15 => StepFlag::SortByPType,
        16 => StepFlag::FindDegenerates,
        17 => StepFlag::FindInvalidData,
        18 => StepFlag::GenUVCoords,
        19 => StepFlag::TransformUVCoords,
        20 => StepFlag::FindInstances,
        21 => StepFlag::OptimizeMeshes,
        22 => StepFlag::OptimizeGraph,
        23 => StepFlag::FlipUVs,
        24 => StepFlag::FlipWindingOrder,
        25 => StepFlag::SplitByBoneCount,
        26 => StepFlag::Debone,
        27 => StepFlag::GlobalScale,
        28 => StepFlag::EmbedTextures,
        29 => StepFlag::ForceGenNormals,
        30 => StepFlag::DropNormals,
        _ => StepFlag::GenBoundingBoxes,
    }
}

/// The listing name of a step.
fn flag_name(f: StepFlag) -> (s: &'static str)
    ensures
        s@ == flag_name_spec(f),
{
    match f {
        StepFlag::CalcTangentSpace => "CalcTangentSpace",
        StepFlag::JoinIdenticalVertices => "JoinIdenticalVertices",
        StepFlag::MakeLeftHanded => "MakeLeftHanded",
        StepFlag::Triangulate => "Triangulate",
        StepFlag::RemoveComponent => "RemoveComponent",
        StepFlag::GenNormals => "GenNormals",
        StepFlag::GenSmoothNormals => "GenSmoothNormals",
        StepFlag::SplitLargeMeshes => "SplitLargeMeshes",
        StepFlag::PreTransformVertices => "PreTransformVertices",
        StepFlag::LimitBoneWeights => "LimitBoneWeights",
        StepFlag::ValidateDataStructure => "ValidateDataStructure",
        StepFlag::ImproveCacheLocality => "ImproveCacheLocality",
        StepFlag::RemoveRedundantMaterials => "RemoveRedundantMaterials",
        StepFlag::FixInfacingNormals => "FixInfacingNormals",
        StepFlag::PopulateArmatureData => "PopulateArmatureData",
        StepFlag::SortByPType => "SortByPType",
        StepFlag::FindDegenerates => "FindDegenerates",
        StepFlag::FindInvalidData => "FindInvalidData",
        StepFlag::GenUVCoords => "GenUVCoords",
        StepFlag::TransformUVCoords => "TransformUVCoords",
        StepFlag::FindInstances => "FindInstances",
        StepFlag::OptimizeMeshes => "OptimizeMeshes",
        StepFlag::OptimizeGraph => "OptimizeGraph",
        StepFlag::FlipUVs => "FlipUVs",
        StepFlag::FlipWindingOrder => "FlipWindingOrder",
        StepFlag::SplitByBoneCount => "SplitByBoneCount",
        StepFlag::Debone => "Debone",
        StepFlag::GlobalScale => "GlobalScale",
        StepFlag::EmbedTextures => "EmbedTextures",
        StepFlag::ForceGenNormals => "ForceGenNormals",
        StepFlag::DropNormals => "DropNormals",
        StepFlag::GenBoundingBoxes => "GenBoundingBoxes",
    }
}

/// Appending one step to a run of names extends the join by a separator
/// and the step's name, or starts the run when it was empty.
proof fn lemma_joined_push(s: Seq<StepFlag>, f: StepFlag)
    ensures
        joined(s.push(f)) == if s.len() == 0 {
            flag_name_spec(f)
        } else {
            (joined(s) + " | "@ + flag_name_spec(f))
        },
{
    let p = s.push(f);
    assert(p.drop_last() =~= s);
    assert(p.last() == f);
}

impl aiPostProcessSteps {
    /// Whether the named step is present in this set.
    pub open spec fn spec_has_flag(self, f: StepFlag) -> bool {
        bit_set(self.value, flag_index(f))
    }

    /// The named steps present in this set, in declaration order.
    pub fn flags_present(self) -> (r: Vec<StepFlag>)
        ensures
            r@ == flags_present_spec(self.value),
    {
        let mut r: Vec<StepFlag> = Vec::new();
        for i in 0..32u32
            invariant
                r@ == flags_upto(self.value, i as int),
        {
            let f = flag_of_index(i);
            proof {
                assert(flag_index(flag_at(i as int)) == i);
            }
            if self.set(aiPostProcessSteps::of(f)) {
                r.push(f);
            }
        }
        r
    }

    /// The diagnostic listing: the names of the steps present, in
    /// declaration order, joined by `" | "`, or `"None"` for the empty set.
    pub fn describe(self) -> (r: String)
        ensures
            r@ == listing_spec(self.value),
    {
        if self.value == 0 {
            return "None".to_owned();
        }
        let mut r = String::new();
        let mut first = true;
        for i in 0..32u32
            invariant
                r@ == joined(flags_upto(self.value, i as int)),
                first <==> flags_upto(self.value, i as int).len() == 0,
        {
            let f = flag_of_index(i);
            proof {
                assert(flag_index(flag_at(i as int)) == i);
            }
            if self.set(aiPostProcessSteps::of(f)) {
                if !first {
                    r.push_str(" | ");
                }
                first = false;
                r.push_str(flag_name(f));
                proof {
                    lemma_joined_push(flags_upto(self.value, i as int), f);
                }
            }
        }
        r
    }
}

/// Uniting with the empty set changes nothing: the empty set is the
/// identity of `union`.
pub proof fn lemma_union_empty(a: aiPostProcessSteps)
    ensures
        a.union_spec(aiPostProcessSteps { value: 0u32 }) == a,
{
    assert(a.value | 0u32 == a.value) by (bit_vector);
}

/// Intersecting a union with one of its operands gives that operand back:
/// every step of `a` is present in `a | b`.
pub proof fn lemma_union_absorb(a: aiPostProcessSteps, b: aiPostProcessSteps)
    ensures
        a.union_spec(b).intersect_spec(a) == a,
        a.union_spec(b).spec_set(a),
        a.union_spec(b).spec_set(b),
{
    let av = a.value;
    let bv = b.value;
    assert((av | bv) & av == av) by (bit_vector);
    assert((av | bv) & bv == bv) by (bit_vector);
}

/// A step is among the first `i` listed steps of `v` exactly when its bit
/// position lies below `i` and its bit is set in `v`.
proof fn lemma_flags_upto_contains(v: u32, i: int, f: StepFlag)
    requires
        0 <= i <= 32,
    ensures
        flags_upto(v, i).contains(f) <==> (flag_index(f) < i && bit_set(v, flag_index(f))),
    decreases i,
{
    assert(flag_at(flag_index(f) as int) == f);
    if i > 0 {
        lemma_flags_upto_contains(v, i - 1, f);
        let s = flags_upto(v, i - 1);
        let e = flag_at(i - 1);
        if bit_set(v, (i - 1) as u32) {
            assert forall|x: StepFlag| s.push(e).contains(x) implies s.contains(x) || x == e by {
                let k = choose|k: int| 0 <= k < s.push(e).len() && s.push(e)[k] == x;
                if k < s.len() {
                    assert(s[k] == x);
                }
            }
            if s.contains(f) || f == e {
                assert(s.push(e).contains(f)) by {
                    if f == e {
                        assert(s.push(e)[s.len() as int] == f);
                    } else {
                        let k = choose|k: int| 0 <= k < s.len() && s[k] == f;
                        assert(s.push(e)[k] == f);
                    }
                }
            }
            assert(flag_index(e) == i - 1);
        }
    }
}

/// The diagnostic listing of a union names exactly the steps present in
/// either operand.
pub proof fn lemma_union_listing(a: aiPostProcessSteps, b: aiPostProcessSteps, f: StepFlag)
    ensures
        flags_present_spec(a.union_spec(b).value).contains(f) <==> (a.spec_has_flag(f)
            || b.spec_has_flag(f)),
{
    let av = a.value;
    let bv = b.value;
    let k = flag_index(f);
    lemma_flags_upto_contains(av | bv, 32, f);
    assert(flag_index(f) < 32) by {
        assert(flag_at(flag_index(f) as int) == f);
    }
    assert(((av | bv) & (1u32 << k) == (1u32 << k)) <==> ((av & (1u32 << k) == (1u32 << k)) || (bv
        & (1u32 << k) == (1u32 << k)))) by (bit_vector);
}

/// Union is commutative and associative.
pub proof fn lemma_union_comm_assoc(
    a: aiPostProcessSteps,
    b: aiPostProcessSteps,
    c: aiPostProcessSteps,
)
    ensures
        a.union_spec(b) == b.union_spec(a),
        a.union_spec(b).union_spec(c) == a.union_spec(b.union_spec(c)),
{
    let av = a.value;
    let bv = b.value;
    let cv = c.value;
    assert(av | bv == bv | av) by (bit_vector);
    assert((av | bv) | cv == av | (bv | cv)) by (bit_vector);
}

} // verus!
