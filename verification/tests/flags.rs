use assimp::{aiPostProcessSteps, StepFlag};

fn of(f: StepFlag) -> aiPostProcessSteps {
    aiPostProcessSteps::of(f)
}

#[test]
fn empty_set_is_default_and_zero() {
    assert_eq!(aiPostProcessSteps::default(), aiPostProcessSteps::empty());
    assert_eq!(aiPostProcessSteps::empty().bits(), 0);
}

#[test]
fn masks_match_the_declared_bits() {
    assert_eq!(of(StepFlag::CalcTangentSpace).bits(), 0x1);
    assert_eq!(of(StepFlag::JoinIdenticalVertices).bits(), 0x2);
    assert_eq!(of(StepFlag::MakeLeftHanded).bits(), 0x4);
    assert_eq!(of(StepFlag::Triangulate).bits(), 0x8);
    assert_eq!(of(StepFlag::GenSmoothNormals).bits(), 0x40);
    assert_eq!(of(StepFlag::GenUVCoords).bits(), 0x4_0000);
    assert_eq!(of(StepFlag::FlipUVs).bits(), 0x80_0000);
    assert_eq!(of(StepFlag::GenBoundingBoxes).bits(), 0x8000_0000);
}

#[test]
fn union_with_empty_is_identity() {
    let a = of(StepFlag::Triangulate)
        .union(of(StepFlag::GenSmoothNormals))
        .union(of(StepFlag::FlipUVs));
    assert_eq!(a.union(aiPostProcessSteps::empty()), a);
    assert_eq!(aiPostProcessSteps::empty().union(a), a);
}

#[test]
fn union_absorbs_its_operands() {
    let a = of(StepFlag::Triangulate).union(of(StepFlag::GenUVCoords));
    let b = of(StepFlag::GenSmoothNormals).union(of(StepFlag::GenUVCoords));
    assert_eq!(a.union(b).intersect(a), a);
    assert_eq!(a.union(b).intersect(b), b);
    assert!(a.union(b).set(a));
    assert!(a.union(b).set(b));
}

#[test]
fn union_is_commutative_and_associative() {
    let a = of(StepFlag::Triangulate);
    let b = of(StepFlag::GenSmoothNormals);
    let c = of(StepFlag::FlipUVs);
    assert_eq!(a.union(b), b.union(a));
    assert_eq!(a.union(b).union(c), a.union(b.union(c)));
}

#[test]
fn set_asks_for_membership() {
    let a = of(StepFlag::Triangulate).union(of(StepFlag::GenSmoothNormals));
    assert!(a.set(of(StepFlag::Triangulate)));
    assert!(a.set(of(StepFlag::GenSmoothNormals)));
    assert!(!a.set(of(StepFlag::GenUVCoords)));
    // the whole set is a subset of itself, the empty set of anything
    assert!(a.set(a));
    assert!(a.set(aiPostProcessSteps::empty()));
}

#[test]
fn listing_of_the_empty_set() {
    assert_eq!(aiPostProcessSteps::empty().describe(), "None");
}

#[test]
fn listing_of_one_step() {
    assert_eq!(of(StepFlag::Triangulate).describe(), "Triangulate");
}

#[test]
fn listing_follows_declaration_order() {
    let a = of(StepFlag::FlipUVs)
        .union(of(StepFlag::Triangulate))
        .union(of(StepFlag::GenSmoothNormals));
    assert_eq!(a.describe(), "Triangulate | GenSmoothNormals | FlipUVs");
}

#[test]
fn listing_of_a_union_names_the_steps_of_both_operands() {
    let a = of(StepFlag::Triangulate).union(of(StepFlag::GenUVCoords));
    let b = of(StepFlag::GenSmoothNormals).union(of(StepFlag::GenUVCoords));
    let listed = a.union(b).flags_present();
    assert_eq!(
        listed,
        vec![
            StepFlag::Triangulate,
            StepFlag::GenSmoothNormals,
            StepFlag::GenUVCoords,
        ]
    );
    assert_eq!(
        a.union(b).describe(),
        "Triangulate | GenSmoothNormals | GenUVCoords"
    );
}

#[test]
fn listing_of_the_full_set() {
    let mut all = aiPostProcessSteps::empty();
    for f in [
        StepFlag::CalcTangentSpace,
        StepFlag::JoinIdenticalVertices,
        StepFlag::MakeLeftHanded,
        StepFlag::Triangulate,
        StepFlag::RemoveComponent,
        StepFlag::GenNormals,
        StepFlag::GenSmoothNormals,
        StepFlag::SplitLargeMeshes,
        StepFlag::PreTransformVertices,
        StepFlag::LimitBoneWeights,
        StepFlag::ValidateDataStructure,
        StepFlag::ImproveCacheLocality,
        StepFlag::RemoveRedundantMaterials,
        StepFlag::FixInfacingNormals,
        StepFlag::PopulateArmatureData,
        StepFlag::SortByPType,
        StepFlag::FindDegenerates,
        StepFlag::FindInvalidData,
        StepFlag::GenUVCoords,
        StepFlag::TransformUVCoords,
        StepFlag::FindInstances,
        StepFlag::OptimizeMeshes,
        StepFlag::OptimizeGraph,
        StepFlag::FlipUVs,
        StepFlag::FlipWindingOrder,
        StepFlag::SplitByBoneCount,
        StepFlag::Debone,
        StepFlag::GlobalScale,
        StepFlag::EmbedTextures,
        StepFlag::ForceGenNormals,
        StepFlag::DropNormals,
        StepFlag::GenBoundingBoxes,
    ] {
        all = all.union(of(f));
    }
    assert_eq!(all.bits(), u32::MAX);
    assert_eq!(all.flags_present().len(), 32);
    assert_eq!(
        all.describe(),
        "CalcTangentSpace | JoinIdenticalVertices | MakeLeftHanded | Triangulate | \
         RemoveComponent | GenNormals | GenSmoothNormals | SplitLargeMeshes | \
         PreTransformVertices | LimitBoneWeights | ValidateDataStructure | \
         ImproveCacheLocality | RemoveRedundantMaterials | FixInfacingNormals | \
         PopulateArmatureData | SortByPType | FindDegenerates | FindInvalidData | \
         GenUVCoords | TransformUVCoords | FindInstances | OptimizeMeshes | OptimizeGraph | \
         FlipUVs | FlipWindingOrder | SplitByBoneCount | Debone | GlobalScale | \
         EmbedTextures | ForceGenNormals | DropNormals | GenBoundingBoxes"
    );
}
