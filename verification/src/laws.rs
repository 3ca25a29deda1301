//! Laws of the generated semantics, stated over the spec-level models that
//! the operations' contracts use and proved for every well-formed bundle.

use vstd::prelude::*;

use crate::generator::{derived_ok, has_hash, has_order, spec_tag, wf_bundle, BundleKind,
    SemanticsBundle};
use crate::schema::SumTypeSchema;
use crate::semantics::{in_bundle, spec_cmp, spec_equal, spec_hash, spec_lt, tag_num, tag_of,
    Ordering, Value};

verus! {

/// Under a well-formed bundle, the tag reached through the dispatch table is
/// the canonical tag of the value's variant, and the integer it carries is
/// the variant's declaration index.
proof fn lemma_value_tag(b: SemanticsBundle, v: Value)
    requires
        wf_bundle(b),
        in_bundle(b, v),
    ensures
        tag_of(b, v) == spec_tag(b.kind, v.variant as int),
        tag_num(tag_of(b, v)) == v.variant,
{
}

/// Tag-only equality: two values built from the same variant are equal,
/// whatever data — even mutually incomparable data — their fields carry.
/// The payloads appear in no hypothesis.
pub proof fn lemma_tag_only_equality(b: SemanticsBundle, x: Value, y: Value)
    requires
        wf_bundle(b),
        in_bundle(b, x),
        in_bundle(b, y),
        x.variant == y.variant,
    ensures
        spec_equal(b, x, y),
{
}

/// Cross-variant inequality: two values built from different variants are
/// unequal, regardless of their field shapes being structurally identical.
pub proof fn lemma_cross_variant_inequality(b: SemanticsBundle, x: Value, y: Value)
    requires
        wf_bundle(b),
        in_bundle(b, x),
        in_bundle(b, y),
        x.variant != y.variant,
    ensures
        !spec_equal(b, x, y),
{
    lemma_value_tag(b, x);
    lemma_value_tag(b, y);
}

/// Order totality: under every bundle that defines an order, exactly one of
/// `lt(x, y)`, `equal(x, y)`, `lt(y, x)` holds, and the one that holds
/// matches the comparison of the variants' declaration indices.
pub proof fn lemma_order_totality(b: SemanticsBundle, x: Value, y: Value)
    requires
        wf_bundle(b),
        in_bundle(b, x),
        in_bundle(b, y),
        has_order(b.kind),
    ensures
        spec_lt(b, x, y) == Some(true) || spec_equal(b, x, y) || spec_lt(b, y, x) == Some(true),
        spec_equal(b, x, y) ==> spec_lt(b, x, y) == Some(false) && spec_lt(b, y, x) == Some(false),
        spec_lt(b, x, y) == Some(true) ==> !spec_equal(b, x, y) && spec_lt(b, y, x) == Some(false),
        spec_lt(b, x, y) == Some(true) <==> x.variant < y.variant,
{
    lemma_value_tag(b, x);
    lemma_value_tag(b, y);
}

/// Order/equality consistency: under every bundle that defines an order,
/// two values are equal exactly when the comparison says `Equal`.
pub proof fn lemma_order_equality_consistency(b: SemanticsBundle, x: Value, y: Value)
    requires
        wf_bundle(b),
        in_bundle(b, x),
        in_bundle(b, y),
        has_order(b.kind),
    ensures
        spec_equal(b, x, y) <==> spec_cmp(b, x, y) == Some(Ordering::Equal),
{
    lemma_value_tag(b, x);
    lemma_value_tag(b, y);
}

/// Hash/equality consistency: under every bundle that defines a hash, equal
/// values hash alike.
pub proof fn lemma_hash_equality_consistency(b: SemanticsBundle, x: Value, y: Value)
    requires
        wf_bundle(b),
        in_bundle(b, x),
        in_bundle(b, y),
        has_hash(b.kind),
    ensures
        spec_equal(b, x, y) ==> spec_hash(b, x) == spec_hash(b, y),
{
}

/// Reordering sensitivity: take a schema, and a second schema identical but
/// for two variants exchanged. A value built from the earlier of the two
/// variants compares less than a value built from the later one under the
/// first schema's derivation, and greater under the second's: the index tag
/// depends on declaration order by design.
pub proof fn lemma_reordering_sensitivity(
    s1: SumTypeSchema,
    s2: SumTypeSchema,
    kind: BundleKind,
    b1: SemanticsBundle,
    b2: SemanticsBundle,
    i: int,
    j: int,
    x1: Value,
    y1: Value,
    x2: Value,
    y2: Value,
)
    requires
        derived_ok(s1, kind, b1),
        derived_ok(s2, kind, b2),
        has_order(kind),
        s1.variants@.len() == s2.variants@.len(),
        0 <= i < j < s1.variants@.len(),
        // the second schema exchanges the variants at positions i and j
        s2.variants@[i].name == s1.variants@[j].name,
        s2.variants@[j].name == s1.variants@[i].name,
        forall|k: int|
            0 <= k < s1.variants@.len() && k != i && k != j ==> (#[trigger] s2.variants@[k]).name
                == s1.variants@[k].name,
        // x1 and x2 are built from the variant declared at i in the first
        // schema and so at j in the second; y1 and y2 from the other one
        x1.variant == i,
        y1.variant == j,
        x2.variant == j,
        y2.variant == i,
    ensures
        spec_lt(b1, x1, y1) == Some(true),
        spec_lt(b2, x2, y2) == Some(false),
        spec_lt(b2, y2, x2) == Some(true),
{
    lemma_value_tag(b1, x1);
    lemma_value_tag(b1, y1);
    lemma_value_tag(b2, x2);
    lemma_value_tag(b2, y2);
}

} // verus!
