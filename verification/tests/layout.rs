use clayout::{Field, StructDecl, StructField, TypeKind, Types};

fn plain_field(name: &str, kind: TypeKind) -> Field {
    Field {
        name: Some(String::from(name)),
        kind,
        constant: false,
        volatile: false,
        bit_field_width: None,
    }
}

fn bit_field(name: &str, width: u8) -> Field {
    Field {
        name: Some(String::from(name)),
        kind: TypeKind::U8,
        constant: false,
        volatile: false,
        bit_field_width: Some(width),
    }
}

#[test]
fn scalar_sizes() {
    let types = Types::new();
    assert_eq!(TypeKind::U8.size(&types), Some(1));
    assert_eq!(TypeKind::S8.size(&types), Some(1));
    assert_eq!(TypeKind::U16.size(&types), Some(2));
    assert_eq!(TypeKind::S16.size(&types), Some(2));
    assert_eq!(TypeKind::U32.size(&types), Some(4));
    assert_eq!(TypeKind::S32.size(&types), Some(4));
    assert_eq!(TypeKind::U64.size(&types), Some(8));
    assert_eq!(TypeKind::S64.size(&types), Some(8));
    assert_eq!(TypeKind::F32.size(&types), Some(4));
    assert_eq!(TypeKind::F64.size(&types), Some(8));
    assert_eq!(TypeKind::Bool.size(&types), Some(1));
    assert_eq!(TypeKind::Void.size(&types), Some(0));
    assert_eq!(TypeKind::Char16.size(&types), Some(2));
    assert_eq!(TypeKind::Char32.size(&types), Some(4));
    assert_eq!(TypeKind::WChar { size: 4 }.size(&types), Some(4));
    assert_eq!(TypeKind::U32.alignment(&types), Some(4));
    assert_eq!(TypeKind::U64.alignment(&types), Some(8));
}

#[test]
fn word_sized_scalars() {
    let types = Types::new();
    assert_eq!(TypeKind::USize { size: 4 }.size(&types), Some(4));
    assert_eq!(TypeKind::USize { size: 8 }.size(&types), Some(8));
    assert_eq!(TypeKind::SSize { size: 4 }.alignment(&types), Some(4));
    let ptr32 = TypeKind::Pointer { size: 4, pointee_type: Box::new(TypeKind::U8) };
    let ptr64 = TypeKind::Pointer { size: 8, pointee_type: Box::new(TypeKind::U8) };
    assert_eq!(ptr32.size(&types), Some(4));
    assert_eq!(ptr64.size(&types), Some(8));
}

#[test]
fn array_sizes() {
    let types = Types::new();
    let arr = TypeKind::Array { element_type: Box::new(TypeKind::U32), size: Some(5) };
    assert_eq!(arr.size(&types), Some(20));
    assert_eq!(arr.alignment(&types), Some(4));

    // An element of size 6 aligned to 4 strides at 8 bytes.
    let odd = TypeKind::LongDouble { size: 6, alignment: 4 };
    assert_eq!(odd.stride(&types), Some(8));
    let arr_odd = TypeKind::Array { element_type: Box::new(odd), size: Some(3) };
    assert_eq!(arr_odd.size(&types), Some(24));

    // An incomplete array's size is unknown, never zero.
    let open_ended = TypeKind::Array { element_type: Box::new(TypeKind::U32), size: None };
    assert_eq!(open_ended.size(&types), None);
    assert_eq!(open_ended.alignment(&types), Some(4));

    // A zero-length array is zero-sized.
    let empty = TypeKind::Array { element_type: Box::new(TypeKind::U32), size: Some(0) };
    assert_eq!(empty.size(&types), Some(0));
}

#[test]
fn function_types_are_unsized() {
    let types = Types::new();
    let f = TypeKind::Function { return_type: Box::new(TypeKind::Void), parameters: vec![] };
    assert_eq!(f.size(&types), None);
    assert_eq!(f.alignment(&types), None);
}

#[test]
fn bitfield_packing() {
    // Three consecutive bit-fields of widths 3, 5 and 2 starting at bit
    // offset 0 pack into bytes 0, 0 and 1.
    let types = Types::new();
    let decl = StructDecl {
        name: Some(String::from("BitField")),
        base_types: vec![],
        fields: vec![
            StructField { offset: 0, field: bit_field("a", 3) },
            StructField { offset: 3, field: bit_field("b", 5) },
            StructField { offset: 8, field: bit_field("c", 2) },
        ],
        size: 2,
        alignment: 1,
        is_class: false,
    };
    let fields = decl.fields();
    assert_eq!(fields.len(), 3);
    assert_eq!(fields[0].offset_bytes(), 0);
    assert_eq!(fields[1].offset_bytes(), 0);
    assert_eq!(fields[2].offset_bytes(), 1);
    assert_eq!(fields[0].offset_bits(), 0);
    assert_eq!(fields[1].offset_bits(), 3);
    assert_eq!(fields[2].offset_bits(), 8);
    assert_eq!(fields[0].size(&types), Some(1));
    assert_eq!(fields[1].size(&types), Some(1));
    assert_eq!(fields[2].size(&types), Some(1));
}

#[test]
fn named_self_reference() {
    // struct Node { struct Node *next; } resolves without unbounded
    // recursion and reports a pointer-sized field.
    let mut types = Types::new();
    let node = StructDecl {
        name: Some(String::from("Node")),
        base_types: vec![],
        fields: vec![StructField {
            offset: 0,
            field: plain_field(
                "next",
                TypeKind::Pointer {
                    size: 8,
                    pointee_type: Box::new(TypeKind::Named(String::from("Node"))),
                },
            ),
        }],
        size: 8,
        alignment: 8,
        is_class: false,
    };
    assert!(types.add_type(TypeKind::Struct(node)));

    let found = types.get("Node").expect("Node should resolve");
    let decl = found.as_struct(&types).expect("Node is a struct");
    let next = decl.get_field(&types, "next").expect("field next");
    assert_eq!(next.size(&types), Some(8));
    assert_eq!(next.kind().size(&types), Some(8));
    assert_eq!(found.size(&types), Some(8));
}

#[test]
fn unresolved_named_size_is_unknown() {
    let types = Types::new();
    let named = TypeKind::Named(String::from("Missing"));
    assert_eq!(named.size(&types), None);
    assert_eq!(named.alignment(&types), None);
    assert!(named.expand_named(&types).is_none());
}

#[test]
fn typedef_chain_resolves() {
    let mut types = Types::new();
    let inner = clayout::Typedef {
        name: String::from("inner_t"),
        underlying_type: TypeKind::U16,
        constant: false,
        volatile: false,
    };
    types.add_type(TypeKind::Typedef(Box::new(inner)));
    let outer = clayout::Typedef {
        name: String::from("outer_t"),
        underlying_type: TypeKind::Named(String::from("inner_t")),
        constant: false,
        volatile: false,
    };
    types.add_type(TypeKind::Typedef(Box::new(outer)));

    let t = types.get("outer_t").expect("outer_t present");
    assert_eq!(t.size(&types), Some(2));
    assert_eq!(t.alignment(&types), Some(2));
}

#[test]
fn cyclic_names_report_unknown() {
    // Two typedefs referring to each other cannot be sized; the cycle is
    // reported as unknown rather than looping or defaulting to zero.
    let mut types = Types::new();
    let a = clayout::Typedef {
        name: String::from("a_t"),
        underlying_type: TypeKind::Named(String::from("b_t")),
        constant: false,
        volatile: false,
    };
    let b = clayout::Typedef {
        name: String::from("b_t"),
        underlying_type: TypeKind::Named(String::from("a_t")),
        constant: false,
        volatile: false,
    };
    types.add_type(TypeKind::Typedef(Box::new(a)));
    types.add_type(TypeKind::Typedef(Box::new(b)));
    assert_eq!(types.get("a_t").unwrap().size(&types), None);
}

#[test]
fn kind_names_and_forward_decls() {
    let fwd = TypeKind::Struct(StructDecl {
        name: Some(String::from("Fwd")),
        base_types: vec![],
        fields: vec![],
        size: 1,
        alignment: 1,
        is_class: false,
    });
    assert!(fwd.is_forward_decl());
    assert_eq!(fwd.name(), Some("Fwd"));
    assert!(!TypeKind::U32.is_forward_decl());
    assert_eq!(TypeKind::Named(String::from("X")).name(), Some("X"));
    assert_eq!(TypeKind::U32.name(), None);
}
