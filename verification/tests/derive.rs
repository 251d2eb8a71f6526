use std::collections::{BTreeMap, BTreeSet};

use iroha_introspect::derive::{
    generic_ident, generics, impl_introspect, IntrospectImpl, is_compact, is_describable, metadata, should_skip,
    variant_index,
    Attribute, Data, DeriveInput, Field, Fields, GenericParam, Generics, Lit, NestedMeta, Variant,
};
use iroha_introspect::types::{describe_type, KnownType, TypeExpr};
use iroha_introspect::{
    Declaration, EnumMeta, EnumVariant, IntMeta, Introspect, Metadata, Mode, ResultMeta,
    SingleContainer, StructMeta,
};

fn codec_path(word: &str) -> Attribute {
    Attribute { path: "codec".to_string(), args: Some(NestedMeta::Path(word.to_string())) }
}

fn codec_index(n: u128) -> Attribute {
    Attribute {
        path: "codec".to_string(),
        args: Some(NestedMeta::NameValue("index".to_string(), Lit::Int(n))),
    }
}

fn named(name: &str, attrs: Vec<Attribute>, ty: Metadata) -> Field {
    Field { ident: Some(name.to_string()), attrs, ty: Some(ty) }
}

fn unnamed(attrs: Vec<Attribute>, ty: Metadata) -> Field {
    Field { ident: None, attrs, ty: Some(ty) }
}

fn no_generics() -> Generics {
    Generics { params: vec![], where_clause: None }
}

fn input(name: &str, data: Data) -> DeriveInput {
    DeriveInput { ident: name.to_string(), generics: no_generics(), data }
}

fn decl(name: Option<&str>, definition: Metadata) -> Declaration {
    Declaration { name: name.map(|s| s.to_string()), definition: Box::new(definition) }
}

fn int_meta(mode: Mode) -> Metadata {
    Metadata::Int(IntMeta { mode })
}

fn vec_of(item: Metadata) -> Metadata {
    Metadata::Vec(SingleContainer { item: Box::new(item) })
}

fn option_of(item: Metadata) -> Metadata {
    Metadata::Option(SingleContainer { item: Box::new(item) })
}

fn unit_variant(name: &str, attrs: Vec<Attribute>, discriminant: Option<i128>) -> Variant {
    Variant { ident: name.to_string(), attrs, fields: Fields::Unit, discriminant }
}

fn struct_with_named_fields_case() {
    let def = input(
        "Command",
        Data::Struct(Fields::Named(vec![
            named("executable", vec![], String::introspect()),
            named("args", vec![], Vec::<String>::introspect()),
            named("mock", vec![codec_path("skip")], bool::introspect()),
            named("num", vec![], i32::introspect()),
        ])),
    );
    let expected_meta = Metadata::Struct(StructMeta {
        ident: "Command".into(),
        declarations: vec![
            decl(Some("executable"), Metadata::String),
            decl(Some("args"), vec_of(Metadata::String)),
            decl(Some("num"), int_meta(Mode::FixedWidth)),
        ],
    });
    assert_eq!(expected_meta, metadata(&def));
}

fn struct_with_unnamed_fields_case() {
    let def = input(
        "Command",
        Data::Struct(Fields::Unnamed(vec![
            unnamed(vec![], String::introspect()),
            unnamed(vec![], Vec::<String>::introspect()),
            unnamed(vec![codec_path("skip")], bool::introspect()),
        ])),
    );
    let expected_meta = Metadata::Struct(StructMeta {
        ident: "Command".into(),
        declarations: vec![decl(None, Metadata::String), decl(None, vec_of(Metadata::String))],
    });
    assert_eq!(expected_meta, metadata(&def));
}

fn enum_with_default_discriminants_case() {
    let def = input(
        "Foo",
        Data::Enum(vec![
            Variant {
                ident: "Variant1".into(),
                attrs: vec![],
                fields: Fields::Named(vec![
                    named("id", vec![], String::introspect()),
                    named("counter", vec![], Option::<u8>::introspect()),
                ]),
                discriminant: None,
            },
            Variant {
                ident: "Variant2".into(),
                attrs: vec![],
                fields: Fields::Unnamed(vec![
                    unnamed(vec![], bool::introspect()),
                    unnamed(vec![], String::introspect()),
                    unnamed(vec![], Result::<bool, String>::introspect()),
                ]),
                discriminant: None,
            },
            unit_variant("Variant3", vec![], None),
            Variant {
                ident: "Variant4".into(),
                attrs: vec![],
                fields: Fields::Unnamed(vec![unnamed(
                    vec![codec_path("skip")],
                    String::introspect(),
                )]),
                discriminant: None,
            },
        ]),
    );
    let expected_meta = Metadata::Enum(EnumMeta {
        ident: "Foo".into(),
        variants: vec![
            EnumVariant {
                name: "Variant1".into(),
                discriminant: 0,
                declarations: vec![
                    decl(Some("id"), Metadata::String),
                    decl(Some("counter"), option_of(int_meta(Mode::FixedWidth))),
                ],
            },
            EnumVariant {
                name: "Variant2".into(),
                discriminant: 1,
                declarations: vec![
                    decl(None, Metadata::Bool),
                    decl(None, Metadata::String),
                    decl(
                        None,
                        Metadata::Result(ResultMeta {
                            ok: Box::new(Metadata::Bool),
                            err: Box::new(Metadata::String),
                        }),
                    ),
                ],
            },
            EnumVariant { name: "Variant3".into(), discriminant: 2, declarations: vec![] },
            EnumVariant { name: "Variant4".into(), discriminant: 3, declarations: vec![] },
        ],
    });
    assert_eq!(expected_meta, metadata(&def));
}

fn enum_with_various_discriminants_case() {
    let def = input(
        "Foo",
        Data::Enum(vec![
            unit_variant("A", vec![codec_index(1)], None),
            unit_variant("B", vec![], Some(77)),
            unit_variant("C", vec![], None),
            unit_variant("D", vec![codec_index(99)], Some(88)),
        ]),
    );
    let expected_meta = Metadata::Enum(EnumMeta {
        ident: "Foo".into(),
        variants: vec![
            EnumVariant { name: "A".into(), discriminant: 1, declarations: vec![] },
            EnumVariant { name: "B".into(), discriminant: 77, declarations: vec![] },
            EnumVariant { name: "C".into(), discriminant: 2, declarations: vec![] },
            EnumVariant { name: "D".into(), discriminant: 99, declarations: vec![] },
        ],
    });
    assert_eq!(expected_meta, metadata(&def));
}

fn numbers_compact_and_fixed_case() {
    let compact = || vec![codec_path("compact")];
    let def = input(
        "Foo",
        Data::Struct(Fields::Named(vec![
            named("u8_compact", compact(), u8::introspect()),
            named("u8_fixed", vec![], u8::introspect()),
            named("u16_compact", compact(), u16::introspect()),
            named("u16_fixed", vec![], u16::introspect()),
            named("u32_compact", compact(), u32::introspect()),
            named("u32_fixed", vec![], u32::introspect()),
            named("u64_compact", compact(), u64::introspect()),
            named("u64_fixed", vec![], u64::introspect()),
            named("u128_compact", compact(), u128::introspect()),
            named("u128_fixed", vec![], u128::introspect()),
        ])),
    );
    let expected_metadata = Metadata::Struct(StructMeta {
        ident: "Foo".to_string(),
        declarations: vec![
            decl(Some("u8_compact"), int_meta(Mode::Compact)),
            decl(Some("u8_fixed"), int_meta(Mode::FixedWidth)),
            decl(Some("u16_compact"), int_meta(Mode::Compact)),
            decl(Some("u16_fixed"), int_meta(Mode::FixedWidth)),
            decl(Some("u32_compact"), int_meta(Mode::Compact)),
            decl(Some("u32_fixed"), int_meta(Mode::FixedWidth)),
            decl(Some("u64_compact"), int_meta(Mode::Compact)),
            decl(Some("u64_fixed"), int_meta(Mode::FixedWidth)),
            decl(Some("u128_compact"), int_meta(Mode::Compact)),
            decl(Some("u128_fixed"), int_meta(Mode::FixedWidth)),
        ],
    });
    assert_eq!(expected_metadata, metadata(&def));
}

fn struct_with_generic_bounds_case() {
    let def = DeriveInput {
        ident: "Foo".into(),
        generics: Generics {
            params: vec![GenericParam::Type("V".into(), "V: Introspect + Sized".into())],
            where_clause: None,
        },
        data: Data::Struct(Fields::Named(vec![named(
            "value",
            vec![],
            Option::<bool>::introspect(),
        )])),
    };
    let expected_metadata = Metadata::Struct(StructMeta {
        ident: "Foo".to_string(),
        declarations: vec![decl(Some("value"), option_of(Metadata::Bool))],
    });
    assert_eq!(expected_metadata, metadata(&def));
    let generated = impl_introspect(&def);
    assert_eq!(generated.self_ty, "Foo");
    assert_eq!(generated.generics.params, vec!["V: Introspect + Sized".to_string()]);
    assert_eq!(generated.generics.type_args, vec!["V".to_string()]);
    assert_eq!(
        generated.header(),
        "impl<V: Introspect + Sized> iroha_introspect::Introspect for Foo<V,>"
    );
    assert_eq!(generated.metadata, expected_metadata);
}

#[test]
fn tests() {
    struct_with_named_fields_case();
    struct_with_unnamed_fields_case();
    enum_with_default_discriminants_case();
    enum_with_various_discriminants_case();
    numbers_compact_and_fixed_case();
    struct_with_generic_bounds_case();
}

#[test]
fn struct_with_named_fields() {
    struct_with_named_fields_case();
}

#[test]
fn struct_with_unnamed_fields() {
    struct_with_unnamed_fields_case();
}

#[test]
fn enum_with_default_discriminants() {
    enum_with_default_discriminants_case();
}

#[test]
fn enum_with_various_discriminants() {
    enum_with_various_discriminants_case();
}

#[test]
fn numbers_compact_and_fixed() {
    numbers_compact_and_fixed_case();
}

#[test]
fn struct_with_generic_bounds() {
    struct_with_generic_bounds_case();
}

#[test]
fn builtin_descriptions() {
    assert_eq!(String::introspect(), Metadata::String);
    assert_eq!(bool::introspect(), Metadata::Bool);
    assert_eq!(i128::introspect(), int_meta(Mode::FixedWidth));
    assert_eq!(Vec::<bool>::introspect(), vec_of(Metadata::Bool));
    assert_eq!(Option::<String>::introspect(), option_of(Metadata::String));
    assert_eq!(Box::<u16>::introspect(), u16::introspect());
    assert_eq!(BTreeSet::<u32>::introspect(), Vec::<u32>::introspect());
    assert_eq!(BTreeMap::<u8, bool>::introspect(), Metadata::String);
    assert_eq!(
        Result::<u8, bool>::introspect(),
        Metadata::Result(ResultMeta {
            ok: Box::new(int_meta(Mode::FixedWidth)),
            err: Box::new(Metadata::Bool),
        })
    );
}

#[test]
fn deep_copy_is_equal() {
    let m = Metadata::Struct(StructMeta {
        ident: "S".into(),
        declarations: vec![decl(Some("a"), vec_of(option_of(Metadata::Bool)))],
    });
    assert_eq!(m.deep_copy(), m);
}

#[test]
fn attribute_lookups() {
    let f = named("x", vec![codec_path("skip"), codec_path("compact")], u8::introspect());
    assert!(is_compact(&f));
    assert!(should_skip(&f.attrs));
    let other_path = Attribute { path: "serde".into(), args: Some(NestedMeta::Path("skip".into())) };
    assert!(!should_skip(&vec![other_path]));
    let unreadable = Attribute { path: "codec".into(), args: None };
    assert!(!should_skip(&vec![unreadable]));
    assert!(!is_compact(&named("y", vec![codec_path("skip")], u8::introspect())));
}

#[test]
fn index_attribute_and_fallbacks() {
    let first_wins = unit_variant("A", vec![codec_index(5), codec_index(9)], Some(3));
    assert_eq!(variant_index(&first_wins, 0), 5);
    let explicit = unit_variant("B", vec![codec_path("compact")], Some(300));
    assert_eq!(variant_index(&explicit, 0), 44);
    let negative = unit_variant("C", vec![], Some(-1));
    assert_eq!(variant_index(&negative, 0), 255);
    let positional = unit_variant("D", vec![], None);
    assert_eq!(variant_index(&positional, 258), 2);
    let not_an_int = Attribute {
        path: "codec".into(),
        args: Some(NestedMeta::NameValue("index".into(), Lit::Other)),
    };
    assert_eq!(variant_index(&unit_variant("E", vec![not_an_int], None), 7), 7);
}

#[test]
fn scale_index_attribute() {
    let scale_index = Attribute {
        path: "scale".into(),
        args: Some(NestedMeta::NameValue("index".into(), Lit::Int(5))),
    };
    assert_eq!(variant_index(&unit_variant("X", vec![scale_index], None), 0), 5);
    let other_path = Attribute {
        path: "serde".into(),
        args: Some(NestedMeta::NameValue("index".into(), Lit::Int(5))),
    };
    assert_eq!(variant_index(&unit_variant("Y", vec![other_path], None), 0), 0);
}

#[test]
fn generics_of_generated_impl() {
    let params = Generics {
        params: vec![
            GenericParam::Lifetime("'a".into(), "'a".into()),
            GenericParam::Type("T".into(), "T: Copy + 'a".into()),
            GenericParam::Const("N".into(), "const N: usize".into()),
        ],
        where_clause: Some("where T: Clone".into()),
    };
    let g = generics(&params);
    assert_eq!(
        g.params,
        vec!["'a".to_string(), "T: Copy + 'a".to_string(), "const N: usize".to_string()]
    );
    assert_eq!(g.type_args, vec!["'a".to_string(), "T".to_string(), "N".to_string()]);
    assert_eq!(g.where_clause, Some("where T: Clone".to_string()));
    assert_eq!(generic_ident(&GenericParam::Const("N".into(), "const N: usize".into())), "N");
    let generated = IntrospectImpl { self_ty: "S".into(), generics: g, metadata: Metadata::Bool };
    assert_eq!(
        generated.header(),
        "impl<'a, T: Copy + 'a, const N: usize> iroha_introspect::Introspect for S<'a,T,N,> \
         where T: Clone"
    );
    let none = generics(&Generics { params: vec![], where_clause: Some("where u8: Copy".into()) });
    assert!(none.params.is_empty() && none.type_args.is_empty() && none.where_clause.is_none());
    let plain = IntrospectImpl { self_ty: "P".into(), generics: none, metadata: Metadata::Bool };
    assert_eq!(plain.header(), "impl iroha_introspect::Introspect for P");
}

#[test]
fn describable_definitions() {
    let ok = input("E", Data::Enum(vec![unit_variant("A", vec![codec_index(255)], None)]));
    assert!(is_describable(&ok));
    let too_big = input("E", Data::Enum(vec![unit_variant("A", vec![codec_index(256)], None)]));
    assert!(!is_describable(&too_big));
    let later_is_ignored = input(
        "E",
        Data::Enum(vec![unit_variant("A", vec![codec_index(3), codec_index(1000)], None)]),
    );
    assert!(is_describable(&later_is_ignored));
    assert!(!is_describable(&input("U", Data::Union)));
    assert!(is_describable(&input("S", Data::Struct(Fields::Unit))));
}

#[test]
fn field_types_needed_only_where_declared() {
    let untyped = |name: &str, attrs: Vec<Attribute>| Field {
        ident: Some(name.to_string()),
        attrs,
        ty: None,
    };
    let def = input(
        "S",
        Data::Struct(Fields::Named(vec![
            untyped("skipped", vec![codec_path("skip")]),
            untyped("small", vec![codec_path("compact")]),
            named("flag", vec![], Metadata::Bool),
        ])),
    );
    assert!(is_describable(&def));
    assert_eq!(
        metadata(&def),
        Metadata::Struct(StructMeta {
            ident: "S".to_string(),
            declarations: vec![
                decl(Some("small"), int_meta(Mode::Compact)),
                decl(Some("flag"), Metadata::Bool),
            ],
        })
    );
    let missing = input("T", Data::Struct(Fields::Named(vec![untyped("x", vec![])])));
    assert!(!is_describable(&missing));
    let in_variant = input(
        "E",
        Data::Enum(vec![Variant {
            ident: "A".into(),
            attrs: vec![],
            fields: Fields::Unnamed(vec![Field { ident: None, attrs: vec![], ty: None }]),
            discriminant: None,
        }]),
    );
    assert!(!is_describable(&in_variant));
}

fn ty(name: &str, args: Vec<TypeExpr>) -> TypeExpr {
    TypeExpr { name: name.to_string(), args }
}

#[test]
fn types_described_by_name() {
    let known = vec![
        KnownType { name: "Foo".into(), metadata: Metadata::Bool },
        KnownType { name: "Foo".into(), metadata: Metadata::String },
    ];
    assert_eq!(describe_type(&ty("u64", vec![]), &known), Some(int_meta(Mode::FixedWidth)));
    assert_eq!(describe_type(&ty("String", vec![]), &known), Some(Metadata::String));
    assert_eq!(
        describe_type(&ty("Option", vec![ty("Vec", vec![ty("bool", vec![])])]), &known),
        Some(option_of(Metadata::Vec(SingleContainer { item: Box::new(Metadata::Bool) })))
    );
    assert_eq!(describe_type(&ty("Box", vec![ty("Foo", vec![])]), &known), Some(Metadata::String));
    assert_eq!(
        describe_type(&ty("BTreeSet", vec![ty("i8", vec![])]), &known),
        Some(Metadata::Vec(SingleContainer { item: Box::new(int_meta(Mode::FixedWidth)) }))
    );
    assert_eq!(
        describe_type(&ty("Result", vec![ty("bool", vec![]), ty("String", vec![])]), &known),
        Some(Metadata::Result(ResultMeta {
            ok: Box::new(Metadata::Bool),
            err: Box::new(Metadata::String),
        }))
    );
    assert_eq!(
        describe_type(&ty("BTreeMap", vec![ty("u8", vec![]), ty("bool", vec![])]), &known),
        Some(Metadata::String)
    );
    assert_eq!(describe_type(&ty("BTreeMap", vec![ty("u8", vec![]), ty("Bar", vec![])]), &known), None);
    assert_eq!(describe_type(&ty("Vec", vec![]), &known), None);
    assert_eq!(describe_type(&ty("Bar", vec![]), &known), None);
}
