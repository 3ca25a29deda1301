use discriminant_semantics::generator::{derive_semantics, Policy, SemanticsBundle, TagKind,
    TraitSelection, VariantTag};
use discriminant_semantics::schema::{FieldShape, SumTypeSchema, TypeDecl, Variant};
use discriminant_semantics::semantics::{cmp, equal, extract_tag, hash_of, lt, shape_matches,
    Ordering, Payload, Value};

fn job_schema() -> TypeDecl {
    TypeDecl::Sum(SumTypeSchema {
        name: String::from("Job"),
        variants: vec![
            Variant { name: String::from("Idle"), shape: FieldShape::Unit },
            Variant { name: String::from("Running"), shape: FieldShape::Positional(1) },
            Variant {
                name: String::from("Failed"),
                shape: FieldShape::Named(vec![String::from("code"), String::from("msg")]),
            },
        ],
    })
}

fn index_ord_eq(decl: &TypeDecl) -> SemanticsBundle {
    derive_semantics(decl, Policy { tag: TagKind::Index, traits: TraitSelection::EqOrd }).unwrap()
}

fn identity_eq_hash(decl: &TypeDecl) -> SemanticsBundle {
    derive_semantics(decl, Policy { tag: TagKind::Identity, traits: TraitSelection::EqHash })
        .unwrap()
}

fn identity_ord_eq_hash(decl: &TypeDecl) -> SemanticsBundle {
    derive_semantics(decl, Policy { tag: TagKind::Identity, traits: TraitSelection::EqOrdHash })
        .unwrap()
}

fn running(n: u64) -> Value {
    Value { variant: 1, payload: Payload::Positional(vec![n]) }
}

fn idle() -> Value {
    Value { variant: 0, payload: Payload::Unit }
}

fn failed(code: u64, msg_blob: u64) -> Value {
    Value {
        variant: 2,
        payload: Payload::Named(vec![
            (String::from("code"), code),
            (String::from("msg"), msg_blob),
        ]),
    }
}

#[test]
fn tag_only_equality() {
    let decl = job_schema();
    for b in [index_ord_eq(&decl), identity_eq_hash(&decl), identity_ord_eq_hash(&decl)] {
        assert!(equal(&b, &running(1), &running(999)));
        assert!(equal(&b, &failed(404, 7), &failed(500, 99)));
        assert!(equal(&b, &idle(), &idle()));
    }
}

#[test]
fn cross_variant_inequality() {
    // two unit variants: structurally identical shapes, still unequal
    let decl = TypeDecl::Sum(SumTypeSchema {
        name: String::from("Switch"),
        variants: vec![
            Variant { name: String::from("On"), shape: FieldShape::Unit },
            Variant { name: String::from("Off"), shape: FieldShape::Unit },
        ],
    });
    let on = Value { variant: 0, payload: Payload::Unit };
    let off = Value { variant: 1, payload: Payload::Unit };
    for b in [index_ord_eq(&decl), identity_eq_hash(&decl), identity_ord_eq_hash(&decl)] {
        assert!(!equal(&b, &on, &off));
        assert!(!equal(&b, &off, &on));
    }
    let decl = job_schema();
    for b in [index_ord_eq(&decl), identity_eq_hash(&decl), identity_ord_eq_hash(&decl)] {
        assert!(!equal(&b, &idle(), &running(0)));
        assert!(!equal(&b, &running(3), &failed(3, 3)));
    }
}

#[test]
fn order_totality_matches_declaration_index() {
    let decl = job_schema();
    let values = [idle(), running(5), failed(1, 2)];
    for b in [index_ord_eq(&decl), identity_ord_eq_hash(&decl)] {
        for x in &values {
            for y in &values {
                let less = lt(&b, x, y).unwrap();
                let eq = equal(&b, x, y);
                let greater = lt(&b, y, x).unwrap();
                // exactly one of the three holds
                assert_eq!(
                    [less, eq, greater].iter().filter(|h| **h).count(),
                    1,
                    "totality violated"
                );
                // and it matches the declaration-index comparison
                assert_eq!(less, x.variant < y.variant);
                assert_eq!(eq, x.variant == y.variant);
                assert_eq!(greater, y.variant < x.variant);
            }
        }
    }
}

#[test]
fn order_equality_consistency() {
    let decl = job_schema();
    let values = [idle(), running(5), running(6), failed(1, 2)];
    for b in [index_ord_eq(&decl), identity_ord_eq_hash(&decl)] {
        for x in &values {
            for y in &values {
                let eq = equal(&b, x, y);
                let ordering = cmp(&b, x, y).unwrap();
                assert_eq!(eq, ordering == Ordering::Equal);
            }
        }
    }
}

#[test]
fn hash_equality_consistency() {
    let decl = job_schema();
    let values = [idle(), running(5), running(6), failed(1, 2), failed(1, 3)];
    for b in [identity_eq_hash(&decl), identity_ord_eq_hash(&decl)] {
        for x in &values {
            for y in &values {
                if equal(&b, x, y) {
                    assert_eq!(hash_of(&b, x), hash_of(&b, y));
                }
            }
        }
    }
}

#[test]
fn hash_ignores_field_data() {
    let decl = job_schema();
    let b = identity_eq_hash(&decl);
    assert_eq!(hash_of(&b, &running(1)), hash_of(&b, &running(999)));
    assert_eq!(hash_of(&b, &failed(404, 7)), hash_of(&b, &failed(500, 99)));
}

#[test]
fn index_bundle_defines_no_hash_and_plain_identity_bundle_no_order() {
    let decl = job_schema();
    let a = index_ord_eq(&decl);
    assert_eq!(hash_of(&a, &idle()), None);
    let b = identity_eq_hash(&decl);
    assert_eq!(cmp(&b, &idle(), &running(1)), None);
    assert_eq!(lt(&b, &idle(), &running(1)), None);
    assert!(hash_of(&b, &idle()).is_some());
}

#[test]
fn reordering_sensitivity() {
    let first = TypeDecl::Sum(SumTypeSchema {
        name: String::from("Letter"),
        variants: vec![
            Variant { name: String::from("X"), shape: FieldShape::Unit },
            Variant { name: String::from("Y"), shape: FieldShape::Unit },
            Variant { name: String::from("Z"), shape: FieldShape::Unit },
        ],
    });
    let second = TypeDecl::Sum(SumTypeSchema {
        name: String::from("Letter"),
        variants: vec![
            Variant { name: String::from("Y"), shape: FieldShape::Unit },
            Variant { name: String::from("X"), shape: FieldShape::Unit },
            Variant { name: String::from("Z"), shape: FieldShape::Unit },
        ],
    });
    let b1 = index_ord_eq(&first);
    let b2 = index_ord_eq(&second);
    // a value built from X: declared at 0 in the first schema, at 1 in the second
    let x1 = Value { variant: 0, payload: Payload::Unit };
    let y1 = Value { variant: 1, payload: Payload::Unit };
    let x2 = Value { variant: 1, payload: Payload::Unit };
    let y2 = Value { variant: 0, payload: Payload::Unit };
    assert_eq!(lt(&b1, &x1, &y1), Some(true));
    assert_eq!(lt(&b2, &x2, &y2), Some(false));
    assert_eq!(lt(&b2, &y2, &x2), Some(true));
}

#[test]
fn mixed_shape_schema() {
    let decl = job_schema();
    let b = index_ord_eq(&decl);
    assert!(equal(&b, &running(1), &running(999)));
    assert_eq!(lt(&b, &idle(), &running(7)), Some(true));
    assert_eq!(lt(&b, &running(7), &failed(0, 0)), Some(true));
    assert_eq!(lt(&b, &idle(), &failed(0, 0)), Some(true));
    assert_eq!(cmp(&b, &failed(0, 0), &idle()), Some(Ordering::Greater));
    // dispatch binds each shape present in the schema
    assert_eq!(extract_tag(&b, &idle()), Some(VariantTag::Index(0)));
    assert_eq!(extract_tag(&b, &running(3)), Some(VariantTag::Index(1)));
    assert_eq!(extract_tag(&b, &failed(1, 1)), Some(VariantTag::Index(2)));
}

#[test]
fn dispatch_rejects_a_payload_of_the_wrong_shape() {
    let decl = job_schema();
    let b = index_ord_eq(&decl);
    // unit variant carrying positional data
    let bad_idle = Value { variant: 0, payload: Payload::Positional(vec![1]) };
    assert_eq!(extract_tag(&b, &bad_idle), None);
    // wrong positional arity
    let bad_running = Value { variant: 1, payload: Payload::Positional(vec![1, 2]) };
    assert_eq!(extract_tag(&b, &bad_running), None);
    // wrong field name
    let bad_failed = Value {
        variant: 2,
        payload: Payload::Named(vec![(String::from("code"), 1), (String::from("reason"), 2)]),
    };
    assert_eq!(extract_tag(&b, &bad_failed), None);
    // variant outside the schema
    let stray = Value { variant: 3, payload: Payload::Unit };
    assert_eq!(extract_tag(&b, &stray), None);
}

#[test]
fn shape_matching_by_kind_arity_and_names() {
    assert!(shape_matches(&Payload::Unit, &FieldShape::Unit));
    assert!(shape_matches(&Payload::Positional(vec![1, 2]), &FieldShape::Positional(2)));
    assert!(!shape_matches(&Payload::Positional(vec![1]), &FieldShape::Positional(2)));
    assert!(!shape_matches(&Payload::Unit, &FieldShape::Positional(0)));
    let named = Payload::Named(vec![(String::from("a"), 1), (String::from("b"), 2)]);
    assert!(shape_matches(&named, &FieldShape::Named(vec![String::from("a"), String::from("b")])));
    assert!(!shape_matches(&named, &FieldShape::Named(vec![String::from("b"), String::from("a")])));
    assert!(!shape_matches(&named, &FieldShape::Named(vec![String::from("a")])));
}

#[test]
fn variant_index_reads_the_discriminant() {
    assert_eq!(idle().variant_index(), 0);
    assert_eq!(running(42).variant_index(), 1);
    assert_eq!(failed(1, 2).variant_index(), 2);
}
