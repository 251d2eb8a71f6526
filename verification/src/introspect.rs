//! Descriptions of the built-in types.
use std::collections::{BTreeMap, BTreeSet};

use vstd::prelude::*;

use crate::metadata::{
    decl_spec, decls_spec, lemma_decls_spec_push, lemma_variants_spec_push, variant_spec,
    variants_spec, DeclSpec, Declaration, EnumMeta, EnumVariant, IntMeta, MetaSpec, Metadata, Mode,
    ResultMeta, SingleContainer, StructMeta, VariantSpec,
};

verus! {

/// A type that can describe its own layout.
///
/// `spec_introspect` is the description; `introspect` computes it.
pub trait Introspect {
    /// The description of `Self`.
    spec fn spec_introspect() -> MetaSpec;

    /// Computes the description of `Self`.
    fn introspect() -> (m: Metadata)
        ensures
            m@ == Self::spec_introspect(),
    ;
}

/// The description of a fixed-width integer.
pub open spec fn fixed_int() -> MetaSpec {
    MetaSpec::Int(Mode::FixedWidth)
}

/// The description of a container of `item`, such as a `Vec` or a set.
pub open spec fn vec_of(item: MetaSpec) -> MetaSpec {
    MetaSpec::Vec(Box::new(item))
}

/// The description of an optional `item`.
pub open spec fn option_of(item: MetaSpec) -> MetaSpec {
    MetaSpec::Option(Box::new(item))
}

/// The description of a `Result` with success type `ok` and error type `err`.
pub open spec fn result_of(ok: MetaSpec, err: MetaSpec) -> MetaSpec {
    MetaSpec::Result(Box::new(ok), Box::new(err))
}

/// Builds the description of a fixed-width integer.
pub fn fixed_int_metadata() -> (m: Metadata)
    ensures
        m@ == MetaSpec::Int(Mode::FixedWidth),
{
    Metadata::Int(IntMeta { mode: Mode::FixedWidth })
}

/// Builds the description of a container of `item`, such as a `Vec` or a set.
pub fn vec_metadata(item: Metadata) -> (m: Metadata)
    ensures
        m@ == vec_of(item@),
{
    Metadata::Vec(SingleContainer { item: Box::new(item) })
}

/// Builds the description of an optional `item`.
pub fn option_metadata(item: Metadata) -> (m: Metadata)
    ensures
        m@ == option_of(item@),
{
    Metadata::Option(SingleContainer { item: Box::new(item) })
}

/// Builds the description of a `Result` with success type `ok` and error type `err`.
pub fn result_metadata(ok: Metadata, err: Metadata) -> (m: Metadata)
    ensures
        m@ == result_of(ok@, err@),
{
    Metadata::Result(ResultMeta { ok: Box::new(ok), err: Box::new(err) })
}

/// The description of a field named `name` whose type is described by `definition`.
pub open spec fn named_decl_spec(name: Seq<char>, definition: MetaSpec) -> DeclSpec {
    DeclSpec { name: Some(name), definition }
}

/// A list of two declarations, written as pushes onto the empty list, is the list of
/// those two.
pub proof fn lemma_two_declarations(a: DeclSpec, b: DeclSpec)
    ensures
        Seq::<DeclSpec>::empty().push(a).push(b) == seq![a, b],
{
    assert(Seq::<DeclSpec>::empty().push(a).push(b) =~= seq![a, b]);
}

/// A list of three declarations, written as pushes onto the empty list, is the list of
/// those three.
pub proof fn lemma_three_declarations(a: DeclSpec, b: DeclSpec, c: DeclSpec)
    ensures
        Seq::<DeclSpec>::empty().push(a).push(b).push(c) == seq![a, b, c],
{
    assert(Seq::<DeclSpec>::empty().push(a).push(b).push(c) =~= seq![a, b, c]);
}

/// The declaration of a field named `name` of the described type.
pub fn named_declaration(name: &str, definition: Metadata) -> (r: Declaration)
    ensures
        decl_spec(r) == named_decl_spec(name@, definition@),
{
    Declaration { name: Some(name.to_owned()), definition: Box::new(definition) }
}

/// The declaration of an unnamed field of the described type.
pub fn unnamed_declaration(definition: Metadata) -> (r: Declaration)
    ensures
        decl_spec(r) == (DeclSpec { name: None, definition: definition@ }),
{
    Declaration { name: None, definition: Box::new(definition) }
}

/// Appends a declaration to a list of declarations.
pub fn push_declaration(declarations: &mut Vec<Declaration>, d: Declaration)
    ensures
        decls_spec(final(declarations)@) == decls_spec(old(declarations)@).push(decl_spec(d)),
{
    proof {
        lemma_decls_spec_push(declarations@, d);
    }
    declarations.push(d);
}

/// The description of a struct named `ident` with the given declarations.
pub fn struct_metadata(ident: &str, declarations: Vec<Declaration>) -> (r: Metadata)
    ensures
        r@ == MetaSpec::Struct(ident@, decls_spec(declarations@)),
{
    Metadata::Struct(StructMeta { ident: ident.to_owned(), declarations })
}

/// The variant `name` with the given discriminant and one unnamed field described by `item`.
pub fn single_field_variant(name: &str, discriminant: u8, item: Metadata) -> (r: EnumVariant)
    ensures
        variant_spec(r) == (VariantSpec {
            name: name@,
            discriminant,
            declarations: seq![DeclSpec { name: None, definition: item@ }],
        }),
{
    let mut declarations: Vec<Declaration> = Vec::new();
    push_declaration(&mut declarations, unnamed_declaration(item));
    assert(decls_spec(declarations@) =~= seq![DeclSpec { name: None, definition: item@ }]);
    EnumVariant { name: name.to_owned(), discriminant, declarations }
}

/// Appends a variant to a list of variants.
pub fn push_variant(variants: &mut Vec<EnumVariant>, v: EnumVariant)
    ensures
        variants_spec(final(variants)@) == variants_spec(old(variants)@).push(variant_spec(v)),
{
    proof {
        lemma_variants_spec_push(variants@, v);
    }
    variants.push(v);
}

/// The description of an enum named `ident` with the given variants.
pub fn enum_metadata(ident: &str, variants: Vec<EnumVariant>) -> (r: Metadata)
    ensures
        r@ == MetaSpec::Enum(ident@, variants_spec(variants@)),
{
    Metadata::Enum(EnumMeta { ident: ident.to_owned(), variants })
}

/// No variants.
pub proof fn lemma_variants_spec_empty()
    ensures
        variants_spec(Seq::<EnumVariant>::empty()) == Seq::<VariantSpec>::empty(),
{
}

/// No declarations.
pub proof fn lemma_decls_spec_empty()
    ensures
        decls_spec(Seq::<Declaration>::empty()) == Seq::<DeclSpec>::empty(),
{
}

impl Introspect for String {
    open spec fn spec_introspect() -> MetaSpec {
        MetaSpec::String
    }

    fn introspect() -> (m: Metadata) {
        Metadata::String
    }
}

impl<T: Introspect> Introspect for Vec<T> {
    open spec fn spec_introspect() -> MetaSpec {
        vec_of(T::spec_introspect())
    }

    fn introspect() -> (m: Metadata) {
        vec_metadata(T::introspect())
    }
}

impl<T: Introspect> Introspect for Option<T> {
    open spec fn spec_introspect() -> MetaSpec {
        option_of(T::spec_introspect())
    }

    fn introspect() -> (m: Metadata) {
        option_metadata(T::introspect())
    }
}

impl Introspect for bool {
    open spec fn spec_introspect() -> MetaSpec {
        MetaSpec::Bool
    }

    fn introspect() -> (m: Metadata) {
        Metadata::Bool
    }
}

/// A box is described as the value it holds.
impl<T: Introspect> Introspect for Box<T> {
    open spec fn spec_introspect() -> MetaSpec {
        T::spec_introspect()
    }

    fn introspect() -> (m: Metadata) {
        T::introspect()
    }
}

impl<T: Introspect, E: Introspect> Introspect for Result<T, E> {
    open spec fn spec_introspect() -> MetaSpec {
        result_of(T::spec_introspect(), E::spec_introspect())
    }

    fn introspect() -> (m: Metadata) {
        result_metadata(T::introspect(), E::introspect())
    }
}

/// A map is not described by its entries yet: it is given the description of a string.
impl<K: Introspect, V: Introspect> Introspect for BTreeMap<K, V> {
    open spec fn spec_introspect() -> MetaSpec {
        MetaSpec::String
    }

    fn introspect() -> (m: Metadata) {
        Metadata::String
    }
}

/// A set is described as a sequence of its elements.
impl<V: Introspect> Introspect for BTreeSet<V> {
    open spec fn spec_introspect() -> MetaSpec {
        vec_of(V::spec_introspect())
    }

    fn introspect() -> (m: Metadata) {
        vec_metadata(V::introspect())
    }
}

impl Introspect for u8 {
    open spec fn spec_introspect() -> MetaSpec {
        fixed_int()
    }

    fn introspect() -> (m: Metadata) {
        fixed_int_metadata()
    }
}

impl Introspect for u16 {
    open spec fn spec_introspect() -> MetaSpec {
        fixed_int()
    }

    fn introspect() -> (m: Metadata) {
        fixed_int_metadata()
    }
}

impl Introspect for u32 {
    open spec fn spec_introspect() -> MetaSpec {
        fixed_int()
    }

    fn introspect() -> (m: Metadata) {
        fixed_int_metadata()
    }
}

impl Introspect for u64 {
    open spec fn spec_introspect() -> MetaSpec {
        fixed_int()
    }

    fn introspect() -> (m: Metadata) {
        fixed_int_metadata()
    }
}

impl Introspect for u128 {
    open spec fn spec_introspect() -> MetaSpec {
        fixed_int()
    }

    fn introspect() -> (m: Metadata) {
        fixed_int_metadata()
    }
}

impl Introspect for i8 {
    open spec fn spec_introspect() -> MetaSpec {
        fixed_int()
    }

    fn introspect() -> (m: Metadata) {
        fixed_int_metadata()
    }
}

impl Introspect for i16 {
    open spec fn spec_introspect() -> MetaSpec {
        fixed_int()
    }

    fn introspect() -> (m: Metadata) {
        fixed_int_metadata()
    }
}

impl Introspect for i32 {
    open spec fn spec_introspect() -> MetaSpec {
        fixed_int()
    }

    fn introspect() -> (m: Metadata) {
        fixed_int_metadata()
    }
}

impl Introspect for i64 {
    open spec fn spec_introspect() -> MetaSpec {
        fixed_int()
    }

    fn introspect() -> (m: Metadata) {
        fixed_int_metadata()
    }
}

impl Introspect for i128 {
    open spec fn spec_introspect() -> MetaSpec {
        fixed_int()
    }

    fn introspect() -> (m: Metadata) {
        fixed_int_metadata()
    }
}


/// The built-in types are described by what they are: a string as a string, a boolean as
/// a boolean, a vector as a vector of its elements, an option as an optional value, a
/// result by its success type and then its error type, and a map (for now) as a string.
pub proof fn law_builtin_descriptions<T: Introspect, E: Introspect>()
    ensures
        <String as Introspect>::spec_introspect() == MetaSpec::String,
        <bool as Introspect>::spec_introspect() == MetaSpec::Bool,
        <Vec<T> as Introspect>::spec_introspect() == MetaSpec::Vec(Box::new(T::spec_introspect())),
        <Option<T> as Introspect>::spec_introspect() == MetaSpec::Option(
            Box::new(T::spec_introspect()),
        ),
        <Result<T, E> as Introspect>::spec_introspect() == MetaSpec::Result(
            Box::new(T::spec_introspect()),
            Box::new(E::spec_introspect()),
        ),
        <BTreeMap<T, E> as Introspect>::spec_introspect() == MetaSpec::String,
{
}

/// A box is described exactly as the value it holds.
pub proof fn law_box_is_transparent<T: Introspect>()
    ensures
        <Box<T> as Introspect>::spec_introspect() == T::spec_introspect(),
{
}

/// A set is described exactly as a vector of the same elements.
pub proof fn law_set_described_as_vec<V: Introspect>()
    ensures
        <BTreeSet<V> as Introspect>::spec_introspect() == <Vec<V> as Introspect>::spec_introspect(),
{
}

/// Every integer type is described as a fixed-width integer.
pub proof fn law_integers_fixed_width()
    ensures
        <u8 as Introspect>::spec_introspect() == MetaSpec::Int(Mode::FixedWidth),
        <u16 as Introspect>::spec_introspect() == MetaSpec::Int(Mode::FixedWidth),
        <u32 as Introspect>::spec_introspect() == MetaSpec::Int(Mode::FixedWidth),
        <u64 as Introspect>::spec_introspect() == MetaSpec::Int(Mode::FixedWidth),
        <u128 as Introspect>::spec_introspect() == MetaSpec::Int(Mode::FixedWidth),
        <i8 as Introspect>::spec_introspect() == MetaSpec::Int(Mode::FixedWidth),
        <i16 as Introspect>::spec_introspect() == MetaSpec::Int(Mode::FixedWidth),
        <i32 as Introspect>::spec_introspect() == MetaSpec::Int(Mode::FixedWidth),
        <i64 as Introspect>::spec_introspect() == MetaSpec::Int(Mode::FixedWidth),
        <i128 as Introspect>::spec_introspect() == MetaSpec::Int(Mode::FixedWidth),
{
}

} // verus!
