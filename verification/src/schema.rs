//! The schema of a type under derivation: an ordered list of variants, each
//! with a name and a field shape. Variant order is load-bearing: it defines
//! the declaration-order index used by the index tag policy. Field *contents*
//! are never inspected; a shape only describes how a dispatch pattern must
//! bind (and discard) the associated data.

use vstd::prelude::*;

verus! {

/// The layout of the data associated with one variant. The contents of the
/// fields are never read by any generated operation; the shape only tells the
/// dispatch pattern how to bind and discard them.
#[derive(Debug)]
pub enum FieldShape {
    /// No associated data.
    Unit,
    /// `n` positional (unnamed) fields.
    Positional(usize),
    /// Named fields, listed in declaration order.
    Named(Vec<String>),
}

/// One alternative of a sum type. The name is an opaque identifier used only
/// for diagnostics and output binding, never for comparison logic.
#[derive(Debug)]
pub struct Variant {
    pub name: String,
    pub shape: FieldShape,
}

/// The schema of a sum type: a name and an ordered sequence of variants.
#[derive(Debug)]
pub struct SumTypeSchema {
    pub name: String,
    pub variants: Vec<Variant>,
}

/// A type declaration as the host's reflection layer reports it: either a sum
/// type with its schema, or a single-shape record type, which has no variant
/// structure and is rejected by derivation.
#[derive(Debug)]
pub enum TypeDecl {
    Sum(SumTypeSchema),
    Record { name: String, shape: FieldShape },
}

/// Two field shapes describe the same layout: the same kind of shape, the
/// same number of fields, and (for named fields) the same names in the same
/// order.
pub open spec fn shape_eqv(a: FieldShape, b: FieldShape) -> bool {
    match (a, b) {
        (FieldShape::Unit, FieldShape::Unit) => true,
        (FieldShape::Positional(m), FieldShape::Positional(n)) => m == n,
        (FieldShape::Named(x), FieldShape::Named(y)) => {
            &&& x@.len() == y@.len()
            &&& forall|i: int| 0 <= i < x@.len() ==> x@[i]@ == y@[i]@
        },
        _ => false,
    }
}

/// Copies a field shape. The copy describes exactly the layout the original
/// describes.
pub fn duplicate_shape(s: &FieldShape) -> (r: FieldShape)
    ensures
        shape_eqv(r, *s),
{
    match s {
        FieldShape::Unit => FieldShape::Unit,
        FieldShape::Positional(n) => FieldShape::Positional(*n),
        FieldShape::Named(names) => {
            let mut out: Vec<String> = Vec::new();
            let n: usize = names.len();
            for i in 0..n
                invariant
                    n == names@.len(),
                    out@.len() == i,
                    forall|k: int| 0 <= k < i ==> out@[k]@ == names@[k]@,
            {
                out.push(names[i].clone());
            }
            FieldShape::Named(out)
        },
    }
}

} // verus!
