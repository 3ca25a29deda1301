//! The behavior a semantics bundle specifies, applied to values.
//!
//! A value of a type under derivation is modeled with its discriminant as a
//! first-class field: the 0-based declaration index of its variant, stored
//! beside an opaque payload. Every operation here reads the tag reached
//! through the bundle's dispatch table and nothing else; the payload is
//! never inspected, which is what lets values with non-comparable or
//! non-hashable field data be compared, ordered and hashed by kind alone.

use vstd::prelude::*;

use crate::generator::{has_hash, has_order, spec_tag, wf_bundle, BundleKind, SemanticsBundle, VariantTag};
use crate::schema::FieldShape;

verus! {

/// The outcome of a comparison.
#[derive(Clone, Copy, Debug, PartialEq, Eq, Structural)]
pub enum Ordering {
    Less,
    Equal,
    Greater,
}

/// The associated data a value carries. The generated operations never read
/// it; it is here so that a value has the layout its variant declares, and
/// so that dispatch can check that a pattern of the recorded shape would
/// bind it.
#[derive(Debug)]
pub enum Payload {
    Unit,
    Positional(Vec<u64>),
    Named(Vec<(String, u64)>),
}

/// A value of a type under derivation: the declaration index of its variant,
/// made explicit, and the data the variant carries.
#[derive(Debug)]
pub struct Value {
    pub variant: usize,
    pub payload: Payload,
}

impl Value {
    /// The 0-based declaration index of the value's variant.
    pub fn variant_index(&self) -> (r: usize)
        ensures
            r == self.variant,
    {
        self.variant
    }
}

/// The value's variant is one the bundle was derived for.
pub open spec fn in_bundle(b: SemanticsBundle, v: Value) -> bool {
    v.variant < b.arms@.len()
}

/// The tag the bundle's dispatch table assigns to the value's variant.
pub open spec fn tag_of(b: SemanticsBundle, v: Value) -> VariantTag {
    b.arms@[v.variant as int].tag
}

/// The integer a tag carries.
pub open spec fn tag_num(t: VariantTag) -> int {
    match t {
        VariantTag::Index(i) => i as int,
        VariantTag::Identity(k) => k as int,
    }
}

/// How two integers compare.
pub open spec fn ord_of(a: int, b: int) -> Ordering {
    if a < b {
        Ordering::Less
    } else if a == b {
        Ordering::Equal
    } else {
        Ordering::Greater
    }
}

/// What the generated equality returns: the tags are equal. Field data plays
/// no part.
pub open spec fn spec_equal(b: SemanticsBundle, x: Value, y: Value) -> bool {
    tag_of(b, x) == tag_of(b, y)
}

/// What the generated comparison returns: the tags' order where the bundle
/// defines one, nothing otherwise.
pub open spec fn spec_cmp(b: SemanticsBundle, x: Value, y: Value) -> Option<Ordering> {
    if has_order(b.kind) {
        Some(ord_of(tag_num(tag_of(b, x)), tag_num(tag_of(b, y))))
    } else {
        None
    }
}

/// What the generated strict order returns: whether `x`'s tag comes before
/// `y`'s where the bundle defines an order, nothing otherwise.
pub open spec fn spec_lt(b: SemanticsBundle, x: Value, y: Value) -> Option<bool> {
    if has_order(b.kind) {
        Some(tag_num(tag_of(b, x)) < tag_num(tag_of(b, y)))
    } else {
        None
    }
}

/// What the generated hash returns: the identity token of the value's
/// variant, alone, where the bundle defines a hash; nothing otherwise. No
/// field data is ever fed into it.
pub open spec fn spec_hash(b: SemanticsBundle, v: Value) -> Option<u64> {
    if has_hash(b.kind) {
        match tag_of(b, v) {
            VariantTag::Identity(k) => Some(k),
            VariantTag::Index(i) => Some(i as u64),
        }
    } else {
        None
    }
}

/// A payload has the layout a field shape declares: a pattern of that shape
/// would bind (and discard) exactly this data.
pub open spec fn spec_shape_matches(p: Payload, s: FieldShape) -> bool {
    match (p, s) {
        (Payload::Unit, FieldShape::Unit) => true,
        (Payload::Positional(vals), FieldShape::Positional(n)) => vals@.len() == n,
        (Payload::Named(fields), FieldShape::Named(names)) => {
            &&& fields@.len() == names@.len()
            &&& forall|i: int| 0 <= i < names@.len() ==> fields@[i].0@ == names@[i]@
        },
        _ => false,
    }
}

/// Whether two tags are the same tag.
fn tag_eq(a: &VariantTag, b: &VariantTag) -> (r: bool)
    ensures
        r == (*a == *b),
{
    match (a, b) {
        (VariantTag::Index(i), VariantTag::Index(j)) => *i == *j,
        (VariantTag::Identity(i), VariantTag::Identity(j)) => *i == *j,
        _ => false,
    }
}

/// The integer a tag carries.
fn tag_value(t: &VariantTag) -> (r: u64)
    ensures
        r as int == tag_num(*t),
{
    match t {
        VariantTag::Index(i) => *i as u64,
        VariantTag::Identity(k) => *k,
    }
}

/// Checks that a payload has the layout a field shape declares.
pub fn shape_matches(p: &Payload, s: &FieldShape) -> (r: bool)
    ensures
        r == spec_shape_matches(*p, *s),
{
    match (p, s) {
        (Payload::Unit, FieldShape::Unit) => true,
        (Payload::Positional(vals), FieldShape::Positional(n)) => vals.len() == *n,
        (Payload::Named(fields), FieldShape::Named(names)) => {
            if fields.len() != names.len() {
                return false;
            }
            let n: usize = names.len();
            for i in 0..n
                invariant
                    n == names@.len(),
                    n == fields@.len(),
                    *p == Payload::Named(*fields),
                    *s == FieldShape::Named(*names),
                    forall|k: int| 0 <= k < i ==> fields@[k].0@ == names@[k]@,
            {
                let field = &fields[i];
                if !(field.0 == names[i]) {
                    proof {
                        assert(!spec_shape_matches(*p, *s)) by {
                            assert(fields@[i as int].0@ != names@[i as int]@);
                        }
                    }
                    return false;
                }
            }
            true
        },
        _ => false,
    }
}

/// Applies the dispatch table to a value: where the value's variant is one
/// the bundle was derived for and its payload has the shape the arm's
/// pattern binds, the arm's tag comes back; otherwise no arm matches.
pub fn extract_tag(b: &SemanticsBundle, v: &Value) -> (r: Option<VariantTag>)
    ensures
        r is Some <==> in_bundle(*b, *v) && spec_shape_matches(
            v.payload,
            b.arms@[v.variant as int].shape,
        ),
        r matches Some(t) ==> t == tag_of(*b, *v),
{
    if v.variant < b.arms.len() {
        let arm = &b.arms[v.variant];
        if shape_matches(&v.payload, &arm.shape) {
            Some(arm.tag)
        } else {
            None
        }
    } else {
        None
    }
}

/// The generated equality: two values are equal iff the tags of their
/// variants are equal, which under a well-formed bundle is exactly when they
/// hold the same variant. Field data is never read, even when the two
/// variants' shapes are structurally identical.
pub fn equal(b: &SemanticsBundle, x: &Value, y: &Value) -> (r: bool)
    requires
        wf_bundle(*b),
        in_bundle(*b, *x),
        in_bundle(*b, *y),
    ensures
        r == spec_equal(*b, *x, *y),
        r <==> x.variant == y.variant,
{
    let tx = &b.arms[x.variant].tag;
    let ty = &b.arms[y.variant].tag;
    tag_eq(tx, ty)
}

/// The generated comparison: where the bundle defines an order, the values
/// compare as the integers their tags carry do — under a well-formed bundle,
/// exactly as their variants' declaration indices do. The identity-tag
/// bundle without order yields no comparison at all.
pub fn cmp(b: &SemanticsBundle, x: &Value, y: &Value) -> (r: Option<Ordering>)
    requires
        wf_bundle(*b),
        in_bundle(*b, *x),
        in_bundle(*b, *y),
    ensures
        r == spec_cmp(*b, *x, *y),
        r is Some <==> has_order(b.kind),
        has_order(b.kind) ==> r == Some(ord_of(x.variant as int, y.variant as int)),
{
    match b.kind {
        BundleKind::IdentityEqHash => None,
        _ => {
            let a = tag_value(&b.arms[x.variant].tag);
            let c = tag_value(&b.arms[y.variant].tag);
            if a < c {
                Some(Ordering::Less)
            } else if a == c {
                Some(Ordering::Equal)
            } else {
                Some(Ordering::Greater)
            }
        },
    }
}

/// The generated strict order: where the bundle defines an order, whether
/// `x` comes strictly before `y` — under a well-formed bundle, whether `x`'s
/// variant was declared before `y`'s.
pub fn lt(b: &SemanticsBundle, x: &Value, y: &Value) -> (r: Option<bool>)
    requires
        wf_bundle(*b),
        in_bundle(*b, *x),
        in_bundle(*b, *y),
    ensures
        r == spec_lt(*b, *x, *y),
        r is Some <==> has_order(b.kind),
        has_order(b.kind) ==> r == Some(x.variant < y.variant),
{
    match cmp(b, x, y) {
        None => None,
        Some(Ordering::Less) => Some(true),
        Some(_) => Some(false),
    }
}

/// The generated hash: where the bundle defines a hash, the hash of a value
/// is its variant's identity token alone; field data is never fed into it.
/// The index-tag bundle defines no hash.
pub fn hash_of(b: &SemanticsBundle, v: &Value) -> (r: Option<u64>)
    requires
        wf_bundle(*b),
        in_bundle(*b, *v),
    ensures
        r == spec_hash(*b, *v),
        r is Some <==> has_hash(b.kind),
        has_hash(b.kind) ==> r == Some(v.variant as u64),
{
    match b.kind {
        BundleKind::IndexOrdEq => None,
        _ => Some(tag_value(&b.arms[v.variant].tag)),
    }
}

} // verus!
