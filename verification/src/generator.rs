//! The derivation core: from a type declaration and a policy to a semantics
//! bundle describing discriminant-only equality, order and hashing.
//!
//! A bundle carries one dispatch arm per variant. An arm records the
//! variant's name and field shape (so the host's emission layer can write a
//! pattern that binds and discards the associated data) and the variant's
//! tag. Two tag kinds exist: the index tag is the 0-based declaration
//! position of the variant, total and stable only as long as the variant
//! sequence is not reordered; the identity tag is a per-variant token, equal
//! for values of the same variant and distinct across variants. In this
//! implementation the identity token is derived from the declaration index;
//! callers must not rely on the relative order of identity tokens being
//! stable across independent builds of the same schema — callers that need a
//! stable order should request the index-tag bundle instead.

use vstd::prelude::*;

use crate::schema::{shape_eqv, duplicate_shape, FieldShape, SumTypeSchema, TypeDecl, Variant};

verus! {

/// Which kind of tag backs the generated operations.
#[derive(Clone, Copy, Debug, PartialEq, Eq, Structural)]
pub enum TagKind {
    Index,
    Identity,
}

/// Which operations a derivation request asks for. Equality is always part
/// of a request; order and hash are optional extras.
#[derive(Clone, Copy, Debug, PartialEq, Eq, Structural)]
pub enum TraitSelection {
    EqOnly,
    EqOrd,
    EqHash,
    EqOrdHash,
}

/// A derivation request: the tag kind that backs the operations, and the set
/// of operations requested.
#[derive(Clone, Copy, Debug, PartialEq, Eq, Structural)]
pub struct Policy {
    pub tag: TagKind,
    pub traits: TraitSelection,
}

/// The three supported bundles. Any other combination of tag kind and trait
/// selection is rejected rather than silently mapped to a nearby behavior.
#[derive(Clone, Copy, Debug, PartialEq, Eq, Structural)]
pub enum BundleKind {
    /// Equality and total order by declaration index; no hash.
    IndexOrdEq,
    /// Equality and hash by identity tag; no order.
    IdentityEqHash,
    /// Equality, order and hash by identity tag. The order is total and
    /// consistent with equality, but its relative arrangement is an
    /// implementation detail of the identity token and is not guaranteed
    /// stable across builds.
    IdentityOrdEqHash,
}

/// Why a derivation was rejected. No partial output accompanies an error.
#[derive(Clone, Copy, Debug, PartialEq, Eq, Structural)]
pub enum DerivationError {
    /// The input declaration has no variant structure at all.
    NotASumType,
    /// The requested tag/trait combination is not one of the supported
    /// bundles.
    UnsupportedBundle,
    /// A sum type declared with zero variants: equality and order are
    /// undefined over an uninhabited type.
    EmptyVariantSet,
}

/// The tag the generated logic compares and hashes: either the variant's
/// 0-based declaration index, or its identity token.
#[derive(Clone, Copy, Debug, PartialEq, Eq, Structural)]
pub enum VariantTag {
    Index(usize),
    Identity(u64),
}

/// One arm of the dispatch table: for a value of the variant named
/// `variant_name`, whose data has shape `shape`, the tag is `tag`. The shape
/// only tells the emission layer how to bind and discard the data; it never
/// influences the tag.
#[derive(Debug)]
pub struct DispatchArm {
    pub variant_name: String,
    pub shape: FieldShape,
    pub tag: VariantTag,
}

/// The product of a successful derivation: which bundle was derived for
/// which type, and the flat one-arm-per-variant dispatch table.
#[derive(Debug)]
pub struct SemanticsBundle {
    pub target: String,
    pub kind: BundleKind,
    pub arms: Vec<DispatchArm>,
}

/// The bundle a policy selects, if the combination is supported.
pub open spec fn bundle_kind_of(policy: Policy) -> Option<BundleKind> {
    match (policy.tag, policy.traits) {
        (TagKind::Index, TraitSelection::EqOrd) => Some(BundleKind::IndexOrdEq),
        (TagKind::Identity, TraitSelection::EqHash) => Some(BundleKind::IdentityEqHash),
        (TagKind::Identity, TraitSelection::EqOrdHash) => Some(BundleKind::IdentityOrdEqHash),
        _ => None,
    }
}

/// Whether a bundle defines an order.
pub open spec fn has_order(kind: BundleKind) -> bool {
    kind is IndexOrdEq || kind is IdentityOrdEqHash
}

/// Whether a bundle defines a hash.
pub open spec fn has_hash(kind: BundleKind) -> bool {
    kind is IdentityEqHash || kind is IdentityOrdEqHash
}

/// The canonical tag of the variant at declaration index `i` under a bundle:
/// the index itself for the index-tag bundle, the identity token (derived
/// here from the index) for the identity-tag bundles.
pub open spec fn spec_tag(kind: BundleKind, i: int) -> VariantTag {
    match kind {
        BundleKind::IndexOrdEq => VariantTag::Index(i as usize),
        _ => VariantTag::Identity(i as u64),
    }
}

/// A well-formed bundle: at least one arm, and the arm at each position
/// carries exactly the canonical tag for that position. This is what makes
/// tags distinct across variants.
pub open spec fn wf_bundle(b: SemanticsBundle) -> bool {
    &&& b.arms@.len() >= 1
    &&& forall|i: int| 0 <= i < b.arms@.len() ==> (#[trigger] b.arms@[i]).tag == spec_tag(b.kind, i)
}

/// A bundle is exactly what derivation produces for a schema under a bundle
/// kind: well-formed, named after the type, one arm per variant in
/// declaration order, each arm carrying its variant's name and shape.
pub open spec fn derived_ok(s: SumTypeSchema, kind: BundleKind, b: SemanticsBundle) -> bool {
    &&& b.kind == kind
    &&& b.target == s.name
    &&& wf_bundle(b)
    &&& b.arms@.len() == s.variants@.len()
    &&& forall|i: int| 0 <= i < s.variants@.len() ==> {
        &&& (#[trigger] b.arms@[i]).variant_name == s.variants@[i].name
        &&& shape_eqv(b.arms@[i].shape, s.variants@[i].shape)
    }
}

/// The complete behavior of derivation on a declaration: which error comes
/// on which input, and what the bundle holds on success.
pub open spec fn derivation_result(
    decl: TypeDecl,
    policy: Policy,
    r: Result<SemanticsBundle, DerivationError>,
) -> bool {
    match decl {
        TypeDecl::Record { .. } => r == Err::<SemanticsBundle, DerivationError>(
            DerivationError::NotASumType,
        ),
        TypeDecl::Sum(s) => if s.variants@.len() == 0 {
            r == Err::<SemanticsBundle, DerivationError>(DerivationError::EmptyVariantSet)
        } else {
            match bundle_kind_of(policy) {
                None => r == Err::<SemanticsBundle, DerivationError>(
                    DerivationError::UnsupportedBundle,
                ),
                Some(kind) => r matches Ok(b) && derived_ok(s, kind, b),
            }
        },
    }
}

/// The bundle kind a policy selects, or `None` where the combination is not
/// one of the three supported bundles.
pub fn bundle_kind_for(policy: Policy) -> (r: Option<BundleKind>)
    ensures
        r == bundle_kind_of(policy),
{
    match (policy.tag, policy.traits) {
        (TagKind::Index, TraitSelection::EqOrd) => Some(BundleKind::IndexOrdEq),
        (TagKind::Identity, TraitSelection::EqHash) => Some(BundleKind::IdentityEqHash),
        (TagKind::Identity, TraitSelection::EqOrdHash) => Some(BundleKind::IdentityOrdEqHash),
        _ => None,
    }
}

/// Derives the semantics bundle a policy requests for a type declaration.
///
/// A declaration without variant structure is rejected with `NotASumType`; a
/// sum type with zero variants with `EmptyVariantSet`; a tag/trait
/// combination outside the supported three with `UnsupportedBundle`. On any
/// other input derivation succeeds, and the bundle holds one arm per variant
/// in declaration order, each carrying the variant's name, its shape, and
/// the canonical tag of its position. Field data never influences the
/// result; derivation reads only the variant list.
pub fn derive_semantics(decl: &TypeDecl, policy: Policy) -> (r: Result<
    SemanticsBundle,
    DerivationError,
>)
    ensures
        derivation_result(*decl, policy, r),
{
    let schema = match decl {
        TypeDecl::Record { .. } => {
            return Err(DerivationError::NotASumType);
        },
        TypeDecl::Sum(s) => s,
    };
    let n: usize = schema.variants.len();
    if n == 0 {
        return Err(DerivationError::EmptyVariantSet);
    }
    let kind = match bundle_kind_for(policy) {
        None => {
            return Err(DerivationError::UnsupportedBundle);
        },
        Some(k) => k,
    };
    let mut arms: Vec<DispatchArm> = Vec::new();
    for idx in 0..n
        invariant
            n == schema.variants@.len(),
            arms@.len() == idx,
            forall|i: int| 0 <= i < idx ==> (#[trigger] arms@[i]).tag == spec_tag(kind, i),
            forall|i: int| 0 <= i < idx ==> (#[trigger] arms@[i]).variant_name
                == schema.variants@[i].name,
            forall|i: int| 0 <= i < idx ==> shape_eqv(
                arms@[i].shape,
                schema.variants@[i].shape,
            ),
    {
        let v: &Variant = &schema.variants[idx];
        let tag = match kind {
            BundleKind::IndexOrdEq => VariantTag::Index(idx),
            _ => VariantTag::Identity(idx as u64),
        };
        arms.push(DispatchArm { variant_name: v.name.clone(), shape: duplicate_shape(&v.shape), tag });
    }
    Ok(SemanticsBundle { target: schema.name.clone(), kind, arms })
}

/// Derives equality and total order by declaration index: the index-tag
/// bundle, the stable choice for callers that sort or deduplicate by kind.
pub fn discriminant_ord_eq_derive(decl: &TypeDecl) -> (r: Result<SemanticsBundle, DerivationError>)
    ensures
        derivation_result(
            *decl,
            Policy { tag: TagKind::Index, traits: TraitSelection::EqOrd },
            r,
        ),
{
    derive_semantics(decl, Policy { tag: TagKind::Index, traits: TraitSelection::EqOrd })
}

} // verus!
