use ffi_reflect::{
    DeclBody, FfiEnumUnderlyingType, FfiPrimitive, FfiType, Member, ReflectErrorKind, Registry,
    TypeDecl, TypeRef, Variant,
};

fn named(n: &str) -> TypeRef {
    TypeRef::Named(n.to_string())
}

fn array(e: TypeRef, len: usize) -> TypeRef {
    TypeRef::Array(Box::new(e), Some(len))
}

fn ptr(t: TypeRef, is_const: bool) -> TypeRef {
    TypeRef::Pointer(Box::new(t), is_const)
}

fn field(n: &str, ty: TypeRef) -> Member {
    Member { name: Some(n.to_string()), ty }
}

fn record(name: &str, repr: Option<&str>, size: usize, align: usize, ms: Vec<Member>) -> TypeDecl {
    TypeDecl {
        name: name.to_string(),
        repr: repr.map(|r| r.to_string()),
        size,
        align,
        body: DeclBody::Struct(ms),
    }
}

fn enumeration(name: &str, repr: &str, vs: &[(&str, Option<i128>)]) -> TypeDecl {
    TypeDecl {
        name: name.to_string(),
        repr: Some(repr.to_string()),
        size: 0,
        align: 0,
        body: DeclBody::Enum(
            vs.iter()
                .map(|(n, d)| Variant { name: n.to_string(), discriminant: *d })
                .collect(),
        ),
    }
}

fn bar_decl() -> TypeDecl {
    record(
        "Bar",
        Some("C"),
        16,
        8,
        vec![field("f1", named("i64")), field("f2", named("i8"))],
    )
}

fn some_enum_decl() -> TypeDecl {
    enumeration("SomeEnum", "u8", &[("A", Some(42)), ("B", Some(17))])
}

fn wrapper(inner: &str) -> TypeDecl {
    record("Wrapper", Some("transparent"), 4, 4, vec![Member { name: None, ty: named(inner) }])
}

fn dbg(t: &FfiType) -> String {
    format!("{:?}", t)
}

#[test]
fn transparent_wrappers_yield_their_primitive() {
    let reg = Registry::new();
    let cases = [
        ("bool", FfiPrimitive::BOOL),
        ("u8", FfiPrimitive::U8),
        ("u16", FfiPrimitive::U16),
        ("u32", FfiPrimitive::U32),
        ("u64", FfiPrimitive::U64),
        ("i8", FfiPrimitive::I8),
        ("i16", FfiPrimitive::I16),
        ("i32", FfiPrimitive::I32),
        ("i64", FfiPrimitive::I64),
        ("f32", FfiPrimitive::F32),
        ("f64", FfiPrimitive::F64),
    ];
    for (name, p) in cases {
        match reg.derive(&wrapper(name)) {
            Ok(FfiType::Primitive(q)) => assert_eq!(q, p),
            other => panic!("unexpected {:?}", other),
        }
    }
}

#[test]
fn record_keeps_members_in_order_with_host_layout() {
    let reg = Registry::new();
    match reg.derive(&bar_decl()) {
        Ok(FfiType::Struct(s)) => {
            assert_eq!(s.name, "Bar");
            assert_eq!(s.fields.len(), 2);
            assert_eq!(s.fields[0].field_name, "f1");
            assert!(matches!(*s.fields[0].field_type, FfiType::Primitive(FfiPrimitive::I64)));
            assert_eq!(s.fields[1].field_name, "f2");
            assert!(matches!(*s.fields[1].field_type, FfiType::Primitive(FfiPrimitive::I8)));
        },
        other => panic!("unexpected {:?}", other),
    }
}

#[test]
fn enumeration_renders_discriminants_in_order() {
    let reg = Registry::new();
    match reg.derive(&some_enum_decl()) {
        Ok(FfiType::Enum(e)) => {
            assert_eq!(e.name, "SomeEnum");
            assert_eq!(e.underlying_type, FfiEnumUnderlyingType::U8);
            assert_eq!(e.values.len(), 2);
            assert_eq!(e.values[0].name, "A");
            assert_eq!(e.values[0].value, "42");
            assert_eq!(e.values[1].name, "B");
            assert_eq!(e.values[1].value, "17");
        },
        other => panic!("unexpected {:?}", other),
    }
}

#[test]
fn discriminants_render_signs_and_extremes() {
    let reg = Registry::new();
    let d = enumeration(
        "Wide",
        "i64",
        &[("Neg", Some(-5)), ("Zero", Some(0)), ("Min", Some(i128::MIN)), ("Max", Some(u64::MAX as i128))],
    );
    match reg.derive(&d) {
        Ok(FfiType::Enum(e)) => {
            assert_eq!(e.underlying_type, FfiEnumUnderlyingType::I64);
            assert_eq!(e.values[0].value, "-5");
            assert_eq!(e.values[1].value, "0");
            assert_eq!(e.values[2].value, i128::MIN.to_string());
            assert_eq!(e.values[3].value, "18446744073709551615");
        },
        other => panic!("unexpected {:?}", other),
    }
}

#[test]
fn array_of_enumeration() {
    let mut reg = Registry::new();
    let en = reg.register(&some_enum_decl()).unwrap();
    let holder = record("Holder", Some("C"), 10, 1, vec![field("d", array(named("SomeEnum"), 10))]);
    let first = reg.derive(&holder).unwrap();
    let second = reg.derive(&holder).unwrap();
    match (&first, &second) {
        (FfiType::Struct(a), FfiType::Struct(b)) => match (&*a.fields[0].field_type, &*b.fields[0].field_type) {
            (FfiType::Array(x), FfiType::Array(y)) => {
                assert_eq!(x.item_count, 10);
                assert_eq!(x.name, "ArrayOf10SomeEnum");
                assert_eq!(x.name, y.name);
                assert_eq!(dbg(&x.item_type), dbg(&en));
            },
            other => panic!("unexpected {:?}", other),
        },
        other => panic!("unexpected {:?}", other),
    }
}

#[test]
fn nested_array_names_compose_outer_in() {
    let reg = Registry::new();
    match reg.resolve_type(&array(array(named("u8"), 3), 2)) {
        Ok(FfiType::Array(a)) => {
            assert_eq!(a.name, "ArrayOf2ArrayOf3u8");
            assert_eq!(a.item_count, 2);
            match &*a.item_type {
                FfiType::Array(inner) => {
                    assert_eq!(inner.name, "ArrayOf3u8");
                    assert_eq!(inner.item_count, 3);
                    assert!(matches!(*inner.item_type, FfiType::Primitive(FfiPrimitive::U8)));
                },
                other => panic!("unexpected {:?}", other),
            }
        },
        other => panic!("unexpected {:?}", other),
    }
}

#[test]
fn deriving_twice_gives_equal_descriptors() {
    let mut reg = Registry::new();
    reg.register(&bar_decl()).unwrap();
    let d = record("Pair", Some("C"), 32, 8, vec![field("a", named("Bar")), field("b", array(named("Bar"), 1))]);
    let first = reg.derive(&d).unwrap();
    let second = reg.derive(&d).unwrap();
    assert_eq!(dbg(&first), dbg(&second));
    let registered = reg.register(&d).unwrap();
    assert_eq!(dbg(&first), dbg(&registered));
    let again = reg.register(&d).unwrap();
    assert_eq!(dbg(&again), dbg(&registered));
    assert_eq!(dbg(&reg.lookup(&"Pair".to_string()).unwrap()), dbg(&registered));
}

#[test]
fn self_pointer_resolves_to_the_record() {
    let mut reg = Registry::new();
    let node = record(
        "Node",
        Some("C"),
        16,
        8,
        vec![field("value", named("i32")), field("next", ptr(named("Node"), true))],
    );
    let desc = reg.register(&node).unwrap();
    match &desc {
        FfiType::Struct(s) => match &*s.fields[1].field_type {
            FfiType::Pointer(p) => {
                assert!(p.is_const);
                let target = p.get_type(&reg).unwrap();
                assert_eq!(dbg(&target), dbg(&desc));
            },
            other => panic!("unexpected {:?}", other),
        },
        other => panic!("unexpected {:?}", other),
    }
}

#[test]
fn pointer_to_undeclared_type_fails_only_when_followed() {
    let reg = Registry::new();
    let d = record("Holder", Some("C"), 8, 8, vec![field("p", ptr(named("Missing"), false))]);
    match reg.derive(&d) {
        Ok(FfiType::Struct(s)) => match &*s.fields[0].field_type {
            FfiType::Pointer(p) => {
                assert!(!p.is_const);
                assert_eq!(p.get_type(&reg).unwrap_err(), ReflectErrorKind::UnsupportedMemberType);
            },
            other => panic!("unexpected {:?}", other),
        },
        other => panic!("unexpected {:?}", other),
    }
}

#[test]
fn empty_record_is_rejected() {
    let reg = Registry::new();
    let e = reg.derive(&record("Unit", Some("C"), 0, 1, vec![])).unwrap_err();
    assert_eq!(e.kind, ReflectErrorKind::EmptyComposite);
    assert_eq!(e.offending_type, "Unit");
    assert_eq!(e.member, None);
}

#[test]
fn variant_without_discriminant_is_rejected() {
    let reg = Registry::new();
    let d = enumeration("Partial", "u8", &[("A", Some(1)), ("B", None), ("C", None)]);
    let e = reg.derive(&d).unwrap_err();
    assert_eq!(e.kind, ReflectErrorKind::MissingDiscriminant);
    assert_eq!(e.offending_type, "Partial");
    assert_eq!(e.member, Some("B".to_string()));
}

#[test]
fn transparent_over_non_primitive_is_rejected() {
    let mut reg = Registry::new();
    reg.register(&bar_decl()).unwrap();
    let e = reg.derive(&wrapper("Bar")).unwrap_err();
    assert_eq!(e.kind, ReflectErrorKind::InvalidTransparentWrapper);
    let two = record("Two", Some("transparent"), 8, 4, vec![field("a", named("u32")), field("b", named("u32"))]);
    assert_eq!(reg.derive(&two).unwrap_err().kind, ReflectErrorKind::InvalidTransparentWrapper);
}

#[test]
fn layouts_without_portable_form_are_rejected() {
    let reg = Registry::new();
    let plain = record("Plain", None, 8, 4, vec![field("a", named("u32"))]);
    assert_eq!(reg.derive(&plain).unwrap_err().kind, ReflectErrorKind::UnreflectableLayout);
    let packed = record("Packed", Some("packed"), 8, 4, vec![field("a", named("u32"))]);
    assert_eq!(reg.derive(&packed).unwrap_err().kind, ReflectErrorKind::UnreflectableLayout);
    let c_enum = enumeration("CEnum", "C", &[("A", Some(1))]);
    assert_eq!(reg.derive(&c_enum).unwrap_err().kind, ReflectErrorKind::UnreflectableLayout);
    let u = TypeDecl {
        name: "U".to_string(),
        repr: Some("transparent".to_string()),
        size: 4,
        align: 4,
        body: DeclBody::Union(vec![field("a", named("u32"))]),
    };
    assert_eq!(reg.derive(&u).unwrap_err().kind, ReflectErrorKind::UnreflectableLayout);
}

#[test]
fn unsupported_and_malformed_members_are_rejected() {
    let reg = Registry::new();
    let d = record("S", Some("C"), 8, 8, vec![field("ok", named("u8")), field("bad", TypeRef::Unsupported("[u8]".to_string()))]);
    let e = reg.derive(&d).unwrap_err();
    assert_eq!(e.kind, ReflectErrorKind::UnsupportedMemberType);
    assert_eq!(e.member, Some("bad".to_string()));
    let d = record("S", Some("C"), 8, 8, vec![field("n", TypeRef::Array(Box::new(named("u8")), None))]);
    assert_eq!(reg.derive(&d).unwrap_err().kind, ReflectErrorKind::MalformedArrayLength);
    let d = record("S", Some("C"), 8, 8, vec![field("x", named("Undeclared"))]);
    assert_eq!(reg.derive(&d).unwrap_err().kind, ReflectErrorKind::UnsupportedMemberType);
}

#[test]
fn positional_members_are_numbered() {
    let reg = Registry::new();
    let d = record(
        "Tuple",
        Some("C"),
        8,
        4,
        vec![Member { name: None, ty: named("u32") }, Member { name: None, ty: named("f32") }],
    );
    match reg.derive(&d).unwrap() {
        FfiType::Struct(s) => {
            assert_eq!(s.fields[0].field_name, "item_0");
            assert_eq!(s.fields[1].field_name, "item_1");
        },
        other => panic!("unexpected {:?}", other),
    }
}

#[test]
fn smoke() {
    let mut reg = Registry::new();
    reg.register(&wrapper_named("Foo", "f32")).unwrap();
    reg.register(&bar_decl()).unwrap();
    reg.register(&some_enum_decl()).unwrap();
    reg.register(&record("Vec2", Some("C"), 8, 4, vec![field("x", named("i32")), field("y", named("i32"))]))
        .unwrap();
    reg.register(&record(
        "Vec3",
        Some("C"),
        12,
        4,
        vec![field("a", named("i32")), field("b", named("i32")), field("c", named("i32"))],
    ))
    .unwrap();
    let union = TypeDecl {
        name: "VecUnion".to_string(),
        repr: Some("C".to_string()),
        size: 12,
        align: 4,
        body: DeclBody::Union(vec![field("two", named("Vec2")), field("three", named("Vec3"))]),
    };
    match reg.register(&union).unwrap() {
        FfiType::Union(u) => {
            assert_eq!(u.size, 12);
            assert_eq!(u.fields.len(), 2);
        },
        other => panic!("unexpected {:?}", other),
    }
    let baz = record(
        "Baz",
        Some("C"),
        0,
        8,
        vec![
            field("a", named("Foo")),
            field("b", named("Bar")),
            field("c", named("SomeEnum")),
            field("d", array(named("SomeEnum"), 10)),
            field("e", array(named("Bar"), 2)),
            field("f", array(named("f64"), 7)),
            field("g", named("VecUnion")),
            field("h", ptr(named("Bar"), true)),
            field("i", ptr(named("bool"), false)),
            field("j", ptr(named("Baz"), true)),
            field("k", ptr(ptr(named("i64"), false), true)),
        ],
    );
    let reflect = reg.register(&baz).unwrap();
    println!("{:#?}", reflect);
    let mut pointers = 0;
    if let FfiType::Struct(s) = &reflect {
        assert_eq!(s.fields.len(), 11);
        for f in s.fields.iter() {
            if let FfiType::Pointer(p) = &*f.field_type {
                println!("The field `{}` actually points to:", f.field_name);
                let target = p.get_type(&reg).unwrap();
                println!("{:#?}", target);
                pointers += 1;
            }
        }
    }
    assert_eq!(pointers, 4);
}

fn wrapper_named(name: &str, inner: &str) -> TypeDecl {
    record(name, Some("transparent"), 4, 4, vec![Member { name: None, ty: named(inner) }])
}

#[test]
fn failures_read_as_messages() {
    let reg = Registry::new();
    let d = enumeration("Partial", "u8", &[("A", Some(1)), ("B", None)]);
    assert_eq!(
        reg.derive(&d).unwrap_err().message(),
        "every enumeration variant needs an explicit discriminant (type `Partial`, member `B`)"
    );
    let e = reg.derive(&record("Unit", Some("C"), 0, 1, vec![])).unwrap_err();
    assert_eq!(e.message(), "a record or union must have at least one member (type `Unit`)");
}
