use clayout::{
    ConstantInfo, ConstantKind, ElabDeclInfo, Env, EnvOptions, EnumDecl, EnumInfo, Field,
    MemberInfo, MemberKind, ParseError, RecordInfo, RecordKind, StructDecl, TypeInfo, TypeKind,
    TypeShape, Typedef, Types, UnderlyingInfo, UnionDecl, WordSize,
};

fn env(word_size: WordSize) -> Env {
    Env::new(EnvOptions { word_size, short_enums: true, signed_char: true })
}

fn ti(name: &str, shape: TypeShape) -> TypeInfo {
    TypeInfo { display_name: String::from(name), is_const: false, is_volatile: false, shape }
}

fn member(name: &str, ty: TypeInfo, offset_bits: usize) -> MemberInfo {
    MemberInfo {
        kind: MemberKind::Field,
        anonymous: false,
        name: Some(String::from(name)),
        ty: Some(ty),
        bit_width: None,
        offset_bits: Some(offset_bits),
    }
}

fn bit_member(name: &str, width: usize, offset_bits: usize) -> MemberInfo {
    MemberInfo {
        kind: MemberKind::Field,
        anonymous: false,
        name: Some(String::from(name)),
        ty: Some(ti("unsigned char", TypeShape::UnsignedChar)),
        bit_width: Some(width),
        offset_bits: Some(offset_bits),
    }
}

fn record(
    kind: RecordKind,
    members: Vec<MemberInfo>,
    size: Option<usize>,
    alignment: Option<usize>,
) -> RecordInfo {
    RecordInfo { kind, bases: vec![], members: Some(members), invalid_members: vec![], size, alignment }
}

fn constant(name: &str, value: i64) -> ConstantInfo {
    ConstantInfo { kind: ConstantKind::Constant, name: Some(String::from(name)), value: Some(value) }
}

fn enum_info(name: &str, underlying_size: Option<usize>, constants: Vec<ConstantInfo>) -> EnumInfo {
    EnumInfo {
        name: Some(String::from(name)),
        underlying: Some(UnderlyingInfo {
            display_name: String::from("int"),
            size: underlying_size,
        }),
        constants,
    }
}

#[test]
fn scalar_kinds_map_to_fixed_widths() {
    let e = env(WordSize::Size64);
    let types = Types::new();
    let cases: Vec<(TypeShape, TypeKind)> = vec![
        (TypeShape::UnsignedLongLong, TypeKind::U64),
        (TypeShape::UnsignedInt, TypeKind::U32),
        (TypeShape::UnsignedShort, TypeKind::U16),
        (TypeShape::UnsignedChar, TypeKind::U8),
        (TypeShape::SignedLongLong, TypeKind::S64),
        (TypeShape::SignedInt, TypeKind::S32),
        (TypeShape::SignedShort, TypeKind::S16),
        (TypeShape::CharSigned, TypeKind::S8),
        (TypeShape::CharUnsigned, TypeKind::U8),
        (TypeShape::Float, TypeKind::F32),
        (TypeShape::Double, TypeKind::F64),
        (TypeShape::Char16, TypeKind::Char16),
        (TypeShape::Char32, TypeKind::Char32),
        (TypeShape::Bool, TypeKind::Bool),
        (TypeShape::Void, TypeKind::Void),
    ];
    for (shape, _expected) in cases {
        let built = TypeKind::new(&e, &types, &ti("scalar", shape)).expect("scalar builds");
        assert_eq!(
            std::mem::discriminant(&built),
            std::mem::discriminant(&_expected),
            "wrong variant for a scalar"
        );
    }
}

#[test]
fn word_size_drives_long_and_pointers() {
    // The same declaration reports 4 bytes under a 32-bit environment and
    // 8 bytes under a 64-bit one.
    let types = Types::new();
    for (ws, expected) in [(WordSize::Size32, 4usize), (WordSize::Size64, 8usize)] {
        let e = env(ws);
        let long = TypeKind::new(&e, &types, &ti("unsigned long", TypeShape::UnsignedLong))
            .expect("long builds");
        assert_eq!(long.size(&types), Some(expected));

        let ptr = TypeKind::new(
            &e,
            &types,
            &ti(
                "int *",
                TypeShape::Pointer {
                    size: Some(expected),
                    pointee: Some(Box::new(ti("int", TypeShape::SignedInt))),
                },
            ),
        )
        .expect("pointer builds");
        assert_eq!(ptr.size(&types), Some(expected));

        // All other fields are unchanged by the word size.
        let int = TypeKind::new(&e, &types, &ti("int", TypeShape::SignedInt)).expect("int builds");
        assert_eq!(int.size(&types), Some(4));
    }
}

#[test]
fn enum_size_follows_policy_answer() {
    // The same constants report size 1 under a compact (short-enums)
    // policy and size 4 under a minimum-int-width policy; the policy is
    // applied by the front end and surfaces as the underlying type size.
    let compact = EnumDecl::new(
        Some(String::from("E")),
        &enum_info("E", Some(1), vec![constant("A", 0), constant("B", 200)]),
    )
    .expect("compact enum builds");
    assert_eq!(compact.size(), 1);

    let wide = EnumDecl::new(
        Some(String::from("E")),
        &enum_info("E", Some(4), vec![constant("A", 0), constant("B", 200)]),
    )
    .expect("wide enum builds");
    assert_eq!(wide.size(), 4);
    assert_eq!(wide.alignment(), 4);
}

#[test]
fn enum_lookup_by_name_and_value() {
    let d = EnumDecl::new(
        Some(String::from("E")),
        &enum_info(
            "E",
            Some(4),
            vec![constant("A", 1), constant("B", 2), constant("C", 2)],
        ),
    )
    .expect("enum builds");
    assert_eq!(d.get("B").expect("B exists").value(), 2);
    assert!(d.get("D").is_none());
    // With duplicate values the first declaration wins.
    assert_eq!(d.get_by_value(2).expect("value 2 exists").name(), "B");
    assert!(d.get_by_value(7).is_none());
    assert_eq!(d.constants().len(), 3);
    assert_eq!(d.name(), Some("E"));
}

#[test]
fn enum_errors() {
    let no_underlying = EnumInfo {
        name: Some(String::from("E")),
        underlying: None,
        constants: vec![],
    };
    assert!(matches!(
        EnumDecl::new(None, &no_underlying),
        Err(ParseError::InvalidAst { .. })
    ));

    let unsized_underlying = enum_info("E", None, vec![]);
    assert!(matches!(
        EnumDecl::new(None, &unsized_underlying),
        Err(ParseError::Sizeof { .. })
    ));

    let nameless_constant = enum_info(
        "E",
        Some(4),
        vec![ConstantInfo { kind: ConstantKind::Constant, name: None, value: Some(1) }],
    );
    assert!(matches!(
        EnumDecl::new(None, &nameless_constant),
        Err(ParseError::InvalidAst { .. })
    ));

    let stray_child = enum_info(
        "E",
        Some(4),
        vec![ConstantInfo {
            kind: ConstantKind::Other { kind_name: String::from("FunctionDecl") },
            name: None,
            value: None,
        }],
    );
    assert!(matches!(
        EnumDecl::new(None, &stray_child),
        Err(ParseError::InvalidAst { .. })
    ));
}

#[test]
fn simple_struct_builds() {
    let e = env(WordSize::Size64);
    let types = Types::new();
    let rec = record(
        RecordKind::Struct,
        vec![
            member("value1", ti("int", TypeShape::SignedInt), 0),
            member("value2", ti("int", TypeShape::SignedInt), 32),
        ],
        Some(8),
        Some(4),
    );
    let d = StructDecl::new(&e, &types, Some(String::from("MyStruct")), &rec)
        .expect("struct builds");
    assert_eq!(d.name(), Some("MyStruct"));
    assert_eq!(d.size(), 8);
    assert_eq!(d.alignment(), 4);
    assert!(!d.is_forward_decl());
    assert!(!d.is_class());
    let f = d.get_field(&types, "value2").expect("value2 exists");
    assert_eq!(f.offset_bytes(), 4);
    assert_eq!(f.size(&types), Some(4));
    assert!(d.get_field(&types, "value3").is_none());
}

#[test]
fn struct_bitfields_from_front_end() {
    let e = env(WordSize::Size64);
    let types = Types::new();
    let rec = record(
        RecordKind::Struct,
        vec![bit_member("a", 3, 0), bit_member("b", 5, 3), bit_member("c", 2, 8)],
        Some(2),
        Some(1),
    );
    let d = StructDecl::new(&e, &types, Some(String::from("BitField")), &rec)
        .expect("bit-field struct builds");
    let fields = d.fields();
    assert_eq!(fields[0].bit_field_width(), Some(3));
    assert_eq!(fields[1].offset_bytes(), 0);
    assert_eq!(fields[2].offset_bytes(), 1);
    assert_eq!(fields[0].size(&types), Some(1));
    assert_eq!(fields[1].size(&types), Some(1));
    assert_eq!(fields[2].size(&types), Some(1));
}

#[test]
fn forward_declaration_is_one_tolerated_byte() {
    let e = env(WordSize::Size64);
    let types = Types::new();
    // The front end cannot size a forward declaration; only a genuinely
    // empty record is tolerated with size 1.
    let rec = record(RecordKind::Struct, vec![], None, None);
    let d = StructDecl::new(&e, &types, Some(String::from("Fwd")), &rec)
        .expect("forward declaration builds");
    assert!(d.is_forward_decl());
    assert_eq!(d.size(), 1);
    assert_eq!(d.alignment(), 1);
}

#[test]
fn invalid_members_are_reported_as_a_batch() {
    let e = env(WordSize::Size64);
    let types = Types::new();
    let rec = RecordInfo {
        kind: RecordKind::Struct,
        bases: vec![],
        members: Some(vec![]),
        invalid_members: vec![Some(String::from("bad_one")), None],
        size: None,
        alignment: None,
    };
    match StructDecl::new(&e, &types, Some(String::from("Broken")), &rec) {
        Err(ParseError::InvalidFields { field_names, struct_name }) => {
            assert_eq!(struct_name, "Broken");
            assert_eq!(field_names, vec![String::from("bad_one"), String::from("<anon>")]);
        },
        other => panic!("expected InvalidFields, got {:?}", other),
    }
}

#[test]
fn struct_errors() {
    let e = env(WordSize::Size64);
    let types = Types::new();

    // A record whose members the front end cannot list.
    let unlistable = RecordInfo {
        kind: RecordKind::Struct,
        bases: vec![],
        members: None,
        invalid_members: vec![],
        size: Some(4),
        alignment: Some(4),
    };
    assert!(matches!(
        StructDecl::new(&e, &types, None, &unlistable),
        Err(ParseError::UnsupportedType { .. })
    ));

    // A field whose offset the front end cannot compute.
    let mut no_offset = member("x", ti("int", TypeShape::SignedInt), 0);
    no_offset.offset_bits = None;
    let rec = record(RecordKind::Struct, vec![no_offset], Some(4), Some(4));
    match StructDecl::new(&e, &types, Some(String::from("S")), &rec) {
        Err(ParseError::Offsetof { field_name, struct_name }) => {
            assert_eq!(field_name, "x");
            assert_eq!(struct_name, "S");
        },
        other => panic!("expected Offsetof, got {:?}", other),
    }

    // A member that is not a field declaration.
    let stray = MemberInfo {
        kind: MemberKind::Other { kind_name: String::from("CXXMethod") },
        anonymous: false,
        name: None,
        ty: None,
        bit_width: None,
        offset_bits: None,
    };
    let rec2 = record(RecordKind::Struct, vec![stray], Some(4), Some(4));
    assert!(matches!(
        StructDecl::new(&e, &types, Some(String::from("S")), &rec2),
        Err(ParseError::UnsupportedEntity { .. })
    ));

    // A base specifier without a type.
    let rec3 = RecordInfo {
        kind: RecordKind::Struct,
        bases: vec![None],
        members: Some(vec![]),
        invalid_members: vec![],
        size: None,
        alignment: None,
    };
    assert!(matches!(
        StructDecl::new(&e, &types, Some(String::from("S")), &rec3),
        Err(ParseError::InvalidAst { .. })
    ));

    // An alignment the front end cannot give on a non-empty record.
    let rec4 = record(
        RecordKind::Struct,
        vec![member("x", ti("int", TypeShape::SignedInt), 0)],
        Some(4),
        None,
    );
    assert!(matches!(
        StructDecl::new(&e, &types, Some(String::from("S")), &rec4),
        Err(ParseError::Alignof { .. })
    ));

    // A size, alignment and field layout that contradict each other.
    let rec5 = record(
        RecordKind::Struct,
        vec![member("x", ti("int", TypeShape::SignedInt), 0)],
        Some(3),
        Some(4),
    );
    assert!(matches!(
        StructDecl::new(&e, &types, Some(String::from("S")), &rec5),
        Err(ParseError::InconsistentLayout { .. })
    ));
}

#[test]
fn derived_size_from_last_field() {
    let e = env(WordSize::Size64);
    let types = Types::new();
    // The front end cannot size the record: the last field's offset plus
    // its size is used instead.
    let rec = record(
        RecordKind::Struct,
        vec![
            member("a", ti("int", TypeShape::SignedInt), 0),
            member("b", ti("short", TypeShape::SignedShort), 32),
        ],
        None,
        Some(4),
    );
    let d = StructDecl::new(&e, &types, Some(String::from("S")), &rec).expect("derived size");
    assert_eq!(d.size(), 6);
}

#[test]
fn derived_size_skips_trailing_incomplete_array() {
    let e = env(WordSize::Size64);
    let types = Types::new();
    // A trailing incomplete array has no size of its own; the
    // second-to-last field sizes the record.
    let flexible = ti(
        "int []",
        TypeShape::IncompleteArray { element: Some(Box::new(ti("int", TypeShape::SignedInt))) },
    );
    let rec = record(
        RecordKind::Struct,
        vec![
            member("len", ti("int", TypeShape::SignedInt), 0),
            member("data", flexible, 32),
        ],
        None,
        Some(4),
    );
    let d = StructDecl::new(&e, &types, Some(String::from("S")), &rec).expect("derived size");
    assert_eq!(d.size(), 4);
}

#[test]
fn inherited_field_found_through_base() {
    let e = env(WordSize::Size64);
    let mut types = Types::new();
    let base_rec = record(
        RecordKind::Struct,
        vec![member("x", ti("int", TypeShape::SignedInt), 0)],
        Some(4),
        Some(4),
    );
    let base = StructDecl::new(&e, &types, Some(String::from("Base")), &base_rec)
        .expect("base builds");
    types.add_type(TypeKind::Struct(base));

    let derived_rec = RecordInfo {
        kind: RecordKind::Struct,
        bases: vec![Some(String::from("Base"))],
        members: Some(vec![member("y", ti("short", TypeShape::SignedShort), 32)]),
        invalid_members: vec![],
        size: Some(8),
        alignment: Some(4),
    };
    let derived = StructDecl::new(&e, &types, Some(String::from("Derived")), &derived_rec)
        .expect("derived builds");

    // The derived type has no field x of its own, but resolves it through
    // the base, preserving the base's type and size.
    let x = derived.get_field(&types, "x").expect("x found through the base");
    assert!(matches!(x.kind(), TypeKind::S32));
    assert_eq!(x.size(&types), Some(4));
    assert_eq!(x.offset_bytes(), 0);
    // Its own field is still found first.
    let y = derived.get_field(&types, "y").expect("own field y");
    assert_eq!(y.offset_bytes(), 4);
    assert_eq!(derived.base_types(), &[String::from("Base")]);
}

#[test]
fn union_builds_and_looks_up() {
    let e = env(WordSize::Size64);
    let types = Types::new();
    let rec = record(
        RecordKind::Union,
        vec![
            member("value1", ti("int", TypeShape::SignedInt), 0),
            member("value2", ti("float", TypeShape::Float), 0),
        ],
        Some(4),
        Some(4),
    );
    let u = UnionDecl::new(&e, &types, Some(String::from("MyUnion")), &rec)
        .expect("union builds");
    assert_eq!(u.name(), Some("MyUnion"));
    assert_eq!(u.size(), 4);
    assert_eq!(u.alignment(), 4);
    assert_eq!(u.fields().len(), 2);
    let f = u.get_field("value2").expect("value2 exists");
    assert!(matches!(f.kind(), TypeKind::F32));
    assert!(u.get_field("value3").is_none());
}

#[test]
fn union_layout_mismatch_is_reported() {
    let e = env(WordSize::Size64);
    let types = Types::new();
    // A field bigger than the union itself contradicts the layout.
    let rec = record(
        RecordKind::Union,
        vec![member("wide", ti("long long", TypeShape::SignedLongLong), 0)],
        Some(4),
        Some(4),
    );
    assert!(matches!(
        UnionDecl::new(&e, &types, Some(String::from("U")), &rec),
        Err(ParseError::InconsistentLayout { .. })
    ));
}

#[test]
fn compound_kinds_build() {
    let e = env(WordSize::Size64);
    let types = Types::new();

    let arr = TypeKind::new(
        &e,
        &types,
        &ti(
            "int [4]",
            TypeShape::FixedArray {
                element: Some(Box::new(ti("int", TypeShape::SignedInt))),
                len: Some(4),
            },
        ),
    )
    .expect("array builds");
    assert_eq!(arr.size(&types), Some(16));

    let func_ptr = TypeKind::new(
        &e,
        &types,
        &ti(
            "void (*)(int)",
            TypeShape::Pointer {
                size: Some(8),
                pointee: Some(Box::new(ti(
                    "void (int)",
                    TypeShape::Function {
                        return_type: Some(Box::new(ti("void", TypeShape::Void))),
                        parameters: Some(vec![ti("int", TypeShape::SignedInt)]),
                    },
                ))),
            },
        ),
    )
    .expect("function pointer builds");
    assert_eq!(func_ptr.size(&types), Some(8));

    let member_ptr = TypeKind::new(
        &e,
        &types,
        &ti(
            "int Foo::*",
            TypeShape::MemberPointer {
                size: Some(16),
                pointee: Some(Box::new(ti("int", TypeShape::SignedInt))),
                record_name: Some(String::from("Foo")),
            },
        ),
    )
    .expect("member pointer builds");
    assert_eq!(member_ptr.size(&types), Some(16));

    let reference = TypeKind::new(
        &e,
        &types,
        &ti(
            "int &",
            TypeShape::Reference {
                size: Some(8),
                pointee: Some(Box::new(ti("int", TypeShape::SignedInt))),
            },
        ),
    )
    .expect("reference builds");
    assert!(matches!(reference, TypeKind::Reference { .. }));
}

#[test]
fn elaborated_references_become_named() {
    let e = env(WordSize::Size64);
    let types = Types::new();
    let named = TypeKind::new(
        &e,
        &types,
        &ti(
            "struct Foo",
            TypeShape::Elaborated {
                target: Some(Box::new(ti("struct Foo", TypeShape::Unsupported {
                    kind_name: String::from("Record"),
                }))),
                decl: Some(ElabDeclInfo { anonymous: false, name: Some(String::from("Foo")) }),
            },
        ),
    )
    .expect("elaborated reference builds");
    assert!(matches!(named, TypeKind::Named(ref n) if n == "Foo"));

    // C has no builtin bool; an elaborated reference to the name maps to
    // the builtin kind.
    let booled = TypeKind::new(
        &e,
        &types,
        &ti(
            "bool",
            TypeShape::Elaborated {
                target: Some(Box::new(ti("bool", TypeShape::Unsupported {
                    kind_name: String::from("Record"),
                }))),
                decl: Some(ElabDeclInfo { anonymous: false, name: Some(String::from("bool")) }),
            },
        ),
    )
    .expect("bool reference builds");
    assert!(matches!(booled, TypeKind::Bool));
}

#[test]
fn unsupported_kinds_are_reported_not_defaulted() {
    let e = env(WordSize::Size64);
    let types = Types::new();
    match TypeKind::new(
        &e,
        &types,
        &ti("__vector", TypeShape::Unsupported { kind_name: String::from("Vector") }),
    ) {
        Err(ParseError::UnsupportedType { context }) => assert_eq!(context, "__vector"),
        other => panic!("expected UnsupportedType, got {:?}", other),
    }

    // A pointer without a pointee, and a long double without a size.
    assert!(matches!(
        TypeKind::new(&e, &types, &ti("p", TypeShape::Pointer { size: Some(8), pointee: None })),
        Err(ParseError::UnsupportedType { .. })
    ));
    assert!(matches!(
        TypeKind::new(
            &e,
            &types,
            &ti("long double", TypeShape::LongDouble { size: None, alignment: None })
        ),
        Err(ParseError::Sizeof { .. })
    ));
}

#[test]
fn typedef_captures_qualifiers() {
    let e = env(WordSize::Size64);
    let types = Types::new();
    let mut aliased = ti("const unsigned int", TypeShape::UnsignedInt);
    aliased.is_const = true;
    let td = Typedef::new(&e, &types, String::from("cu32"), &aliased).expect("typedef builds");
    assert_eq!(td.name(), "cu32");
    assert!(td.constant);
    assert!(!td.volatile);
    assert!(matches!(td.underlying_type(), TypeKind::U32));
}

#[test]
fn anonymous_member_keeps_no_name() {
    let e = env(WordSize::Size64);
    let types = Types::new();
    let m = MemberInfo {
        kind: MemberKind::Field,
        anonymous: true,
        name: None,
        ty: Some(ti("union", TypeShape::UnsignedInt)),
        bit_width: None,
        offset_bits: Some(0),
    };
    let f = Field::new(&e, &types, &m).expect("anonymous member builds");
    assert_eq!(f.name(), None);
    assert_eq!(f.size(&types), Some(4));

    // A named member without a name is malformed input.
    let nameless = MemberInfo {
        kind: MemberKind::Field,
        anonymous: false,
        name: None,
        ty: Some(ti("int", TypeShape::SignedInt)),
        bit_width: None,
        offset_bits: Some(0),
    };
    assert!(matches!(
        Field::new(&e, &types, &nameless),
        Err(ParseError::InvalidAst { .. })
    ));
}

#[test]
fn inline_anonymous_record_in_type() {
    let e = env(WordSize::Size64);
    let types = Types::new();
    // An anonymous struct handed back inline as a type.
    let rec = record(
        RecordKind::Struct,
        vec![member("a", ti("int", TypeShape::SignedInt), 0)],
        Some(4),
        Some(4),
    );
    let t = TypeKind::new(
        &e,
        &types,
        &ti("(anonymous struct)", TypeShape::Record { decl: Some(Box::new(rec)) }),
    )
    .expect("inline record builds");
    match &t {
        TypeKind::Struct(d) => {
            assert_eq!(d.name(), None);
            assert_eq!(d.fields().len(), 1);
        },
        other => panic!("expected an inline struct, got {:?}", other),
    }
    assert_eq!(t.size(&types), Some(4));
    assert!(t.as_struct(&types).is_some());
}
