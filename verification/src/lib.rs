//! Derivation of discriminant-based equality, total ordering and hashing for
//! sum types.
//!
//! Given the schema of a sum type (an ordered list of variants, each with a
//! field shape), the generator produces a semantics bundle: a per-variant
//! dispatch table mapping each variant to a tag, together with the choice of
//! which operations (equality, order, hash) the tag supports. The generated
//! operations depend only on which variant a value holds, never on the data
//! carried inside it, so values of the sum type can be sorted, deduplicated
//! or used as keys by kind alone, even when their fields are not comparable
//! or hashable.

pub mod generator;
pub mod laws;
pub mod schema;
pub mod semantics;
