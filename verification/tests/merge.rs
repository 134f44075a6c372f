use clayout::{ExtendTypesError, Field, StructDecl, StructField, TypeKind, Types};

fn full_decl(name: &str, field_kind: TypeKind) -> TypeKind {
    TypeKind::Struct(StructDecl {
        name: Some(String::from(name)),
        base_types: vec![],
        fields: vec![StructField {
            offset: 0,
            field: Field {
                name: Some(String::from("a")),
                kind: field_kind,
                constant: false,
                volatile: false,
                bit_field_width: None,
            },
        }],
        size: 8,
        alignment: 8,
        is_class: false,
    })
}

fn forward_decl(name: &str) -> TypeKind {
    TypeKind::Struct(StructDecl {
        name: Some(String::from(name)),
        base_types: vec![],
        fields: vec![],
        size: 1,
        alignment: 1,
        is_class: false,
    })
}

fn singleton(kind: TypeKind) -> Types {
    let mut t = Types::new();
    assert!(t.add_type(kind));
    t
}

#[test]
fn add_and_get() {
    let mut t = Types::new();
    assert!(t.is_empty());
    assert!(t.add_type(full_decl("Foo", TypeKind::S32)));
    assert_eq!(t.len(), 1);
    assert!(!t.is_empty());
    assert!(t.get("Foo").is_some());
    assert!(t.get("Bar").is_none());

    // An unnamed declaration cannot be added.
    assert!(!t.add_type(TypeKind::U32));
    assert_eq!(t.len(), 1);
}

#[test]
fn types_iterates_in_insertion_order() {
    let mut t = Types::new();
    t.add_type(forward_decl("B"));
    t.add_type(forward_decl("A"));
    t.add_type(forward_decl("C"));
    let names: Vec<Option<&str>> = t.types().into_iter().map(|k| k.name()).collect();
    assert_eq!(names, vec![Some("B"), Some("A"), Some("C")]);
}

#[test]
fn extend_inserts_new_names() {
    let mut t = singleton(full_decl("Foo", TypeKind::S32));
    let other = singleton(full_decl("Bar", TypeKind::S64));
    t.extend(other).expect("disjoint names merge cleanly");
    assert_eq!(t.len(), 2);
    assert!(t.get("Foo").is_some());
    assert!(t.get("Bar").is_some());
}

#[test]
fn extend_idempotent() {
    // Merging a structurally identical copy leaves the table unchanged
    // and never errors.
    let mut t = singleton(full_decl("Foo", TypeKind::S32));
    let copy = singleton(full_decl("Foo", TypeKind::S32));
    t.extend(copy).expect("identical definitions merge cleanly");
    assert_eq!(t.len(), 1);
    let merged = t.get("Foo").unwrap();
    let decl = merged.as_struct(&t).unwrap();
    assert_eq!(decl.fields().len(), 1);
    assert_eq!(decl.size(), 8);
}

#[test]
fn extend_promotes_forward_declaration() {
    // Forward declaration first, full definition second: promoted.
    let mut t = singleton(forward_decl("Foo"));
    let other = singleton(full_decl("Foo", TypeKind::S32));
    t.extend(other).expect("promotion is no conflict");
    assert!(!t.get("Foo").unwrap().is_forward_decl());

    // The reverse order keeps the full definition: never regressed.
    let mut t2 = singleton(full_decl("Foo", TypeKind::S32));
    let other2 = singleton(forward_decl("Foo"));
    t2.extend(other2).expect("a forward declaration never conflicts");
    assert!(!t2.get("Foo").unwrap().is_forward_decl());
    assert_eq!(t2.get("Foo").unwrap().as_struct(&t2).unwrap().fields().len(), 1);
}

#[test]
fn extend_conflict_carries_both_definitions() {
    // Two structurally different full definitions conflict in either
    // merge order, with both definitions attached.
    let mut t = singleton(full_decl("Foo", TypeKind::S32));
    let other = singleton(full_decl("Foo", TypeKind::S64));
    let err = t.extend(other).expect_err("differing definitions conflict");
    match err {
        ExtendTypesError::ConflictingTypes { left, right } => {
            let left_decl = match *left {
                TypeKind::Struct(d) => d,
                _ => panic!("left side should be the struct already in the table"),
            };
            let right_decl = match *right {
                TypeKind::Struct(d) => d,
                _ => panic!("right side should be the incoming struct"),
            };
            assert!(matches!(left_decl.fields[0].field.kind, TypeKind::S32));
            assert!(matches!(right_decl.fields[0].field.kind, TypeKind::S64));
        },
    }

    let mut t2 = singleton(full_decl("Foo", TypeKind::S64));
    let other2 = singleton(full_decl("Foo", TypeKind::S32));
    let err2 = t2.extend(other2).expect_err("the conflict shows in either order");
    match err2 {
        ExtendTypesError::ConflictingTypes { left, right } => {
            let left_decl = match *left {
                TypeKind::Struct(d) => d,
                _ => panic!("left side should be the struct already in the table"),
            };
            let right_decl = match *right {
                TypeKind::Struct(d) => d,
                _ => panic!("right side should be the incoming struct"),
            };
            assert!(matches!(left_decl.fields[0].field.kind, TypeKind::S64));
            assert!(matches!(right_decl.fields[0].field.kind, TypeKind::S32));
        },
    }

    // The table keeps its own definition after the conflict.
    assert!(matches!(
        t2.get("Foo").unwrap().as_struct(&t2).unwrap().fields[0].field.kind,
        TypeKind::S64
    ));
}

#[test]
fn extend_stops_at_conflict_but_keeps_earlier_entries() {
    let mut t = singleton(full_decl("Foo", TypeKind::S32));
    let mut other = Types::new();
    other.add_type(full_decl("Bar", TypeKind::S16));
    other.add_type(full_decl("Foo", TypeKind::S64));
    other.add_type(full_decl("Baz", TypeKind::S8));
    assert!(t.extend(other).is_err());
    // Bar was processed before the conflict; Baz never was.
    assert!(t.get("Bar").is_some());
    assert!(t.get("Baz").is_none());
    assert_eq!(t.len(), 2);
}

#[test]
fn structural_equality() {
    // Two independently built, structurally identical definitions compare
    // equal; a differing field type breaks the equality.
    assert!(full_decl("Foo", TypeKind::S32) == full_decl("Foo", TypeKind::S32));
    assert!(full_decl("Foo", TypeKind::S32) != full_decl("Foo", TypeKind::S64));
    assert!(full_decl("Foo", TypeKind::S32) != forward_decl("Foo"));
    assert!(forward_decl("Foo") != forward_decl("Bar"));
}

#[test]
fn default_table_is_empty() {
    let t = Types::default();
    assert!(t.is_empty());
    assert_eq!(t.len(), 0);
}

#[test]
fn clone_preserves_structure() {
    let original = full_decl("Foo", TypeKind::S32);
    let copy = original.clone();
    match copy {
        TypeKind::Struct(d) => {
            assert_eq!(d.name(), Some("Foo"));
            assert_eq!(d.fields.len(), 1);
            assert!(matches!(d.fields[0].field.kind, TypeKind::S32));
        },
        _ => panic!("clone keeps the variant"),
    }
}
