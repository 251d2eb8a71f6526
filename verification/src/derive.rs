//! The description of a user type, computed from its definition.
//!
//! A type definition is given as plain values ([`DeriveInput`]): its name, its
//! generic parameters, and its fields or variants with their attributes. Each
//! field carries the description of its own type. From these the functions
//! below compute what the type's `introspect` returns:
//!
//! * a field marked `#[codec(skip)]` is left out;
//! * a field marked `#[codec(compact)]` is described as a compact integer;
//! * an enum variant's discriminant is its `#[scale(index = n)]` attribute (also
//!   written `#[codec(index = n)]`), else its explicit discriminant cast to a byte,
//!   else its position cast to a byte.
use vstd::prelude::*;
use vstd::string::StringExecFns;

use crate::metadata::{
    copy_name, decls_spec, lemma_decls_spec_push, lemma_variants_spec_push, opt_str_view,
    variant_spec, variants_spec, DeclSpec, Declaration, EnumMeta, EnumVariant, IntMeta, MetaSpec,
    Metadata, Mode, StructMeta, VariantSpec,
};

verus! {

/// A literal in an attribute argument.
pub enum Lit {
    /// An integer literal, by its value.
    Int(u128),
    /// Any other literal.
    Other,
}

/// The argument of an attribute, read as one meta item.
pub enum NestedMeta {
    /// A bare path, such as `compact` in `#[codec(compact)]`, by its text.
    Path(String),
    /// A `path = literal` pair, such as `index = 1` in `#[codec(index = 1)]`.
    NameValue(String, Lit),
    /// Any other meta item or literal.
    Other,
}

/// An outer attribute of a field or a variant.
pub struct Attribute {
    /// The attribute's path, by its text (`codec` in `#[codec(compact)]`).
    pub path: String,
    /// The attribute's argument read as one meta item; none when it does not read as one.
    pub args: Option<NestedMeta>,
}

/// A field of a struct or of an enum variant.
pub struct Field {
    /// The field's name; none for a tuple field.
    pub ident: Option<String>,
    /// The field's outer attributes.
    pub attrs: Vec<Attribute>,
    /// The description of the field's type (what the type's `introspect` returns), where
    /// it is known. It is needed only for a field that is neither skipped nor compact.
    pub ty: Option<Metadata>,
}

/// The fields of a struct or of an enum variant.
pub enum Fields {
    Named(Vec<Field>),
    Unnamed(Vec<Field>),
    Unit,
}

/// A variant of an enum.
pub struct Variant {
    pub ident: String,
    pub attrs: Vec<Attribute>,
    pub fields: Fields,
    /// The value of the variant's explicit discriminant (`B = 77`), if it has one.
    pub discriminant: Option<i128>,
}

/// The body of a type definition.
pub enum Data {
    Struct(Fields),
    Enum(Vec<Variant>),
    Union,
}

/// A generic parameter of a type definition: its name, and its declaration as written
/// in the definition, with its bounds, type and default (`V: Introspect + Sized`,
/// `'a: 'b`, `const N: usize`).
pub enum GenericParam {
    /// A type parameter: its name and its declaration.
    Type(String, String),
    /// A lifetime parameter: its name with the leading quote, and its declaration.
    Lifetime(String, String),
    /// A const parameter: its name and its declaration.
    Const(String, String),
}

/// The generic parameters of a type definition and its `where` clause.
pub struct Generics {
    pub params: Vec<GenericParam>,
    /// The text of the `where` clause, if there is one.
    pub where_clause: Option<String>,
}

/// A type definition.
pub struct DeriveInput {
    pub ident: String,
    pub generics: Generics,
    pub data: Data,
}

// ---------------------------------------------------------------------------
// Attributes
// ---------------------------------------------------------------------------

/// The argument of `a` when `a` is a `codec` attribute whose argument reads as one meta item.
pub open spec fn codec_arg(a: Attribute) -> Option<NestedMeta> {
    if a.path@ == "codec"@ {
        a.args
    } else {
        None
    }
}

/// `a` is the attribute `#[codec(word)]`.
pub open spec fn is_codec_flag(a: Attribute, word: Seq<char>) -> bool {
    match codec_arg(a) {
        Some(NestedMeta::Path(p)) => p@ == word,
        _ => false,
    }
}

/// Some attribute in `attrs` is `#[codec(word)]`.
pub open spec fn has_codec_flag(attrs: Seq<Attribute>, word: Seq<char>) -> bool {
    exists|i: int| 0 <= i < attrs.len() && #[trigger] is_codec_flag(attrs[i], word)
}

/// The field is marked `#[codec(compact)]`.
pub open spec fn spec_is_compact(f: Field) -> bool {
    has_codec_flag(f.attrs@, "compact"@)
}

/// The attributes mark their item `#[codec(skip)]`.
pub open spec fn spec_should_skip(attrs: Seq<Attribute>) -> bool {
    has_codec_flag(attrs, "skip"@)
}

/// The argument of `a` when `a` is a `scale` or `codec` attribute whose argument reads
/// as one meta item.
pub open spec fn index_attr_arg(a: Attribute) -> Option<NestedMeta> {
    if a.path@ == "scale"@ || a.path@ == "codec"@ {
        a.args
    } else {
        None
    }
}

/// The integer of `a` when `a` is `#[scale(index = n)]` or `#[codec(index = n)]` with an
/// integer literal `n`.
pub open spec fn index_value(a: Attribute) -> Option<u128> {
    match index_attr_arg(a) {
        Some(NestedMeta::NameValue(p, Lit::Int(v))) => if p@ == "index"@ {
            Some(v)
        } else {
            None
        },
        _ => None,
    }
}

/// The integer of the first `#[scale(index = n)]` or `#[codec(index = n)]` attribute in `attrs`.
pub open spec fn first_index(attrs: Seq<Attribute>) -> Option<u128>
    decreases attrs.len(),
{
    if attrs.len() == 0 {
        None
    } else if index_value(attrs[0]) is Some {
        index_value(attrs[0])
    } else {
        first_index(attrs.drop_first())
    }
}

/// The first index attribute, if any, holds a value that fits in a byte.
pub open spec fn index_fits(attrs: Seq<Attribute>) -> bool {
    first_index(attrs) matches Some(v) ==> v <= 255
}

/// `s` is the word `w`.
pub(crate) fn is_word(s: &String, w: &str) -> (r: bool)
    ensures
        r == (s@ == w@),
{
    let t = w.to_owned();
    *s == t
}

/// The meta item of a `codec` attribute.
fn codec_arg_of(a: &Attribute) -> (r: Option<&NestedMeta>)
    ensures
        match codec_arg(*a) {
            Some(m) => r == Some(&m),
            None => r is None,
        },
{
    if is_word(&a.path, "codec") {
        match &a.args {
            Some(m) => Some(m),
            None => None,
        }
    } else {
        None
    }
}

/// Looks for `#[codec(word)]` in `attrs`.
fn find_codec_flag(attrs: &Vec<Attribute>, word: &str) -> (r: bool)
    ensures
        r == has_codec_flag(attrs@, word@),
{
    let mut i: usize = 0;
    while i < attrs.len()
        invariant
            i <= attrs.len(),
            forall|j: int| 0 <= j < i ==> !#[trigger] is_codec_flag(attrs@[j], word@),
        decreases attrs.len() - i,
    {
        let found = match codec_arg_of(&attrs[i]) {
            Some(NestedMeta::Path(p)) => is_word(p, word),
            _ => false,
        };
        if found {
            assert(is_codec_flag(attrs@[i as int], word@));
            return true;
        }
        i = i + 1;
    }
    false
}

/// Looks for a `#[codec(compact)]` attribute on the field.
pub fn is_compact(field: &Field) -> (r: bool)
    ensures
        r == spec_is_compact(*field),
{
    find_codec_flag(&field.attrs, "compact")
}

/// Looks for a `#[codec(skip)]` attribute.
pub fn should_skip(attrs: &Vec<Attribute>) -> (r: bool)
    ensures
        r == spec_should_skip(attrs@),
{
    find_codec_flag(attrs, "skip")
}

/// The argument of a `scale` or `codec` attribute.
fn index_attr_arg_of(a: &Attribute) -> (r: Option<&NestedMeta>)
    ensures
        match index_attr_arg(*a) {
            Some(m) => r == Some(&m),
            None => r is None,
        },
{
    if is_word(&a.path, "scale") || is_word(&a.path, "codec") {
        match &a.args {
            Some(m) => Some(m),
            None => None,
        }
    } else {
        None
    }
}

/// The value of the attribute when it is `#[scale(index = n)]` or `#[codec(index = n)]`
/// with an integer `n`.
fn index_value_of(a: &Attribute) -> (r: Option<u128>)
    ensures
        r == index_value(*a),
{
    match index_attr_arg_of(a) {
        Some(NestedMeta::NameValue(p, Lit::Int(v))) => {
            if is_word(p, "index") {
                Some(*v)
            } else {
                None
            }
        },
        _ => None,
    }
}

/// Looks for the first `#[scale(index = n)]` or `#[codec(index = n)]` attribute and gives
/// `n` as a byte.
pub fn find_index(attrs: &Vec<Attribute>) -> (r: Option<u8>)
    requires
        index_fits(attrs@),
    ensures
        r == (match first_index(attrs@) {
            Some(v) => Some(v as u8),
            None => None,
        }),
{
    match first_index_of(attrs) {
        Some(v) => Some(v as u8),
        None => None,
    }
}

/// Looks for the first `#[scale(index = n)]` or `#[codec(index = n)]` attribute and gives `n`.
pub fn first_index_of(attrs: &Vec<Attribute>) -> (r: Option<u128>)
    ensures
        r == first_index(attrs@),
{
    let mut i: usize = 0;
    assert(attrs@.skip(0) =~= attrs@);
    while i < attrs.len()
        invariant
            i <= attrs.len(),
            first_index(attrs@) == first_index(attrs@.skip(i as int)),
        decreases attrs.len() - i,
    {
        assert(attrs@.skip(i as int).drop_first() =~= attrs@.skip(i + 1));
        assert(attrs@.skip(i as int)[0] == attrs@[i as int]);
        match index_value_of(&attrs[i]) {
            Some(v) => {
                return Some(v);
            },
            None => {},
        }
        i = i + 1;
    }
    assert(attrs@.skip(i as int).len() == 0);
    None
}

// ---------------------------------------------------------------------------
// Fields and declarations
// ---------------------------------------------------------------------------

/// The description of a field: a compact integer when marked so, else its type's
/// (which a field that is declared has, see [`field_typed`]).
pub open spec fn field_definition(f: Field) -> MetaSpec {
    if spec_is_compact(f) {
        MetaSpec::Int(Mode::Compact)
    } else {
        match f.ty {
            Some(m) => m@,
            None => arbitrary(),
        }
    }
}

/// The description of the field's type is known wherever the field's declaration needs
/// it: the field is skipped, or compact, or its type's description is given.
pub open spec fn field_typed(f: Field) -> bool {
    spec_should_skip(f.attrs@) || spec_is_compact(f) || f.ty is Some
}

/// Every field of the list is [`field_typed`].
pub open spec fn fields_typed(fields: Seq<Field>) -> bool {
    forall|i: int| 0 <= i < fields.len() ==> field_typed(#[trigger] fields[i])
}

/// The declaration made for a field that is not skipped.
pub open spec fn field_declaration(f: Field) -> DeclSpec {
    DeclSpec { name: opt_str_view(f.ident), definition: field_definition(f) }
}

/// The declarations of a list of fields: one per field not marked `#[codec(skip)]`, in order.
pub open spec fn spec_declarations(fields: Seq<Field>) -> Seq<DeclSpec>
    decreases fields.len(),
{
    if fields.len() == 0 {
        Seq::empty()
    } else {
        let rest = spec_declarations(fields.drop_last());
        let f = fields.last();
        if spec_should_skip(f.attrs@) {
            rest
        } else {
            rest.push(field_declaration(f))
        }
    }
}

/// The fields as a sequence (none for a unit struct or variant).
pub open spec fn field_list(fields: Fields) -> Seq<Field> {
    match fields {
        Fields::Named(v) => v@,
        Fields::Unnamed(v) => v@,
        Fields::Unit => Seq::empty(),
    }
}

/// Builds the declarations of a list of fields.
pub fn declarations(fields: &Vec<Field>) -> (r: Vec<Declaration>)
    requires
        fields_typed(fields@),
    ensures
        decls_spec(r@) == spec_declarations(fields@),
{
    let mut out: Vec<Declaration> = Vec::new();
    let mut i: usize = 0;
    while i < fields.len()
        invariant
            i <= fields.len(),
            fields_typed(fields@),
            decls_spec(out@) == spec_declarations(fields@.take(i as int)),
        decreases fields.len() - i,
    {
        let f = &fields[i];
        let compact = is_compact(f);
        let skip = should_skip(&f.attrs);
        assert(fields@.take(i + 1).drop_last() =~= fields@.take(i as int));
        assert(fields@.take(i + 1).last() == fields@[i as int]);
        if !skip {
            assert(field_typed(fields@[i as int]));
            let definition = if compact {
                Metadata::Int(IntMeta { mode: Mode::Compact })
            } else {
                match &f.ty {
                    Some(m) => m.deep_copy(),
                    None => vstd::pervasive::unreached(),
                }
            };
            let d = Declaration { name: copy_name(&f.ident), definition: Box::new(definition) };
            proof {
                lemma_decls_spec_push(out@, d);
            }
            out.push(d);
        }
        i = i + 1;
    }
    assert(fields@.take(fields.len() as int) =~= fields@);
    out
}

/// Builds the declarations of the fields of a struct or of a variant.
pub fn get_fields_declaration(fields: &Fields) -> (r: Vec<Declaration>)
    requires
        fields_typed(field_list(*fields)),
    ensures
        decls_spec(r@) == spec_declarations(field_list(*fields)),
{
    match fields {
        Fields::Named(v) => declarations(v),
        Fields::Unnamed(v) => declarations(v),
        Fields::Unit => {
            let empty: Vec<Field> = Vec::new();
            declarations(&empty)
        },
    }
}

// ---------------------------------------------------------------------------
// Variants
// ---------------------------------------------------------------------------

/// The discriminant of the variant at position `i`: its index attribute, else its
/// explicit discriminant cast to a byte, else its position cast to a byte.
pub open spec fn spec_variant_index(v: Variant, i: int) -> u8 {
    match first_index(v.attrs@) {
        Some(n) => n as u8,
        None => match v.discriminant {
            Some(d) => d as u8,
            None => i as u8,
        },
    }
}

/// Computes the discriminant of the variant at position `i`.
pub fn variant_index(v: &Variant, i: usize) -> (r: u8)
    requires
        index_fits(v.attrs@),
    ensures
        r == spec_variant_index(*v, i as int),
{
    match find_index(&v.attrs) {
        Some(n) => n,
        None => match v.discriminant {
            Some(d) => d as u8,
            None => i as u8,
        },
    }
}

/// The description of the variant at position `i`.
pub open spec fn spec_variant(v: Variant, i: int) -> VariantSpec {
    VariantSpec {
        name: v.ident@,
        discriminant: spec_variant_index(v, i),
        declarations: spec_declarations(field_list(v.fields)),
    }
}

/// The descriptions of the variants, in order.
pub open spec fn spec_variants(vs: Seq<Variant>) -> Seq<VariantSpec> {
    Seq::new(vs.len(), |i: int| spec_variant(vs[i], i))
}

/// The fields of every variant are [`fields_typed`].
pub open spec fn variants_typed(vs: Seq<Variant>) -> bool {
    forall|i: int| 0 <= i < vs.len() ==> fields_typed(field_list(#[trigger] vs[i].fields))
}

/// Every variant's index attribute, if any, fits in a byte.
pub open spec fn variants_indices_fit(vs: Seq<Variant>) -> bool {
    forall|i: int| 0 <= i < vs.len() ==> index_fits(#[trigger] vs[i].attrs@)
}

// ---------------------------------------------------------------------------
// Whole types
// ---------------------------------------------------------------------------

/// The description of a struct named `name` with the given fields.
pub open spec fn spec_struct_metadata(name: Seq<char>, fields: Fields) -> MetaSpec {
    MetaSpec::Struct(name, spec_declarations(field_list(fields)))
}

/// The description of an enum named `name` with the given variants.
pub open spec fn spec_enum_metadata(name: Seq<char>, variants: Seq<Variant>) -> MetaSpec {
    MetaSpec::Enum(name, spec_variants(variants))
}

/// The definition can be described: it is not a union, its index attributes fit in a
/// byte, and the type of each of its fields that is declared has a known description.
pub open spec fn describable(input: DeriveInput) -> bool {
    match input.data {
        Data::Struct(fields) => fields_typed(field_list(fields)),
        Data::Enum(vs) => variants_indices_fit(vs@) && variants_typed(vs@),
        Data::Union => false,
    }
}

/// The description of a type definition.
pub open spec fn spec_metadata(input: DeriveInput) -> MetaSpec {
    match input.data {
        Data::Struct(fields) => spec_struct_metadata(input.ident@, fields),
        Data::Enum(vs) => spec_enum_metadata(input.ident@, vs@),
        Data::Union => MetaSpec::Bool,
    }
}

/// Builds the description of a struct.
pub fn metadata_for_structs(name: &String, data_struct: &Fields) -> (r: Metadata)
    requires
        fields_typed(field_list(*data_struct)),
    ensures
        r@ == spec_struct_metadata(name@, *data_struct),
{
    let declarations = get_fields_declaration(data_struct);
    Metadata::Struct(StructMeta { ident: name.clone(), declarations })
}

/// Builds the description of an enum.
pub fn metadata_for_enums(name: &String, variants: &Vec<Variant>) -> (r: Metadata)
    requires
        variants_indices_fit(variants@),
        variants_typed(variants@),
    ensures
        r@ == spec_enum_metadata(name@, variants@),
{
    let mut out: Vec<EnumVariant> = Vec::new();
    let mut i: usize = 0;
    while i < variants.len()
        invariant
            i <= variants.len(),
            variants_indices_fit(variants@),
            variants_typed(variants@),
            variants_spec(out@) == spec_variants(variants@.take(i as int)),
        decreases variants.len() - i,
    {
        let v = &variants[i];
        assert(index_fits(variants@[i as int].attrs@));
        assert(fields_typed(field_list(variants@[i as int].fields)));
        let discriminant = variant_index(v, i);
        let declarations = get_fields_declaration(&v.fields);
        let ev = EnumVariant { name: v.ident.clone(), discriminant, declarations };
        proof {
            lemma_variants_spec_push(out@, ev);
            assert(variant_spec(ev) == spec_variant(variants@[i as int], i as int));
            assert(spec_variants(variants@.take(i + 1)) =~= spec_variants(
                variants@.take(i as int),
            ).push(spec_variant(variants@[i as int], i as int)));
        }
        out.push(ev);
        i = i + 1;
    }
    assert(variants@.take(variants.len() as int) =~= variants@);
    Metadata::Enum(EnumMeta { ident: name.clone(), variants: out })
}

/// Tells whether a type definition can be described: it is not a union, and each of its
/// index attributes fits in a byte.
pub fn is_describable(input: &DeriveInput) -> (r: bool)
    ensures
        r == describable(*input),
{
    match &input.data {
        Data::Struct(fields) => are_fields_typed(fields),
        Data::Union => false,
        Data::Enum(variants) => {
            let mut i: usize = 0;
            while i < variants.len()
                invariant
                    i <= variants.len(),
                    describable(*input) == (variants_indices_fit(variants@) && variants_typed(
                        variants@,
                    )),
                    forall|j: int| 0 <= j < i ==> index_fits(#[trigger] variants@[j].attrs@),
                    forall|j: int|
                        0 <= j < i ==> fields_typed(field_list(#[trigger] variants@[j].fields)),
                decreases variants.len() - i,
            {
                match first_index_of(&variants[i].attrs) {
                    Some(v) => {
                        if v > 255 {
                            assert(!index_fits(variants@[i as int].attrs@));
                            assert(!variants_indices_fit(variants@));
                            return false;
                        }
                    },
                    None => {},
                }
                if !are_fields_typed(&variants[i].fields) {
                    assert(!variants_typed(variants@));
                    return false;
                }
                i = i + 1;
            }
            true
        },
    }
}

/// Tells whether every field is [`field_typed`].
fn are_fields_typed(fields: &Fields) -> (r: bool)
    ensures
        r == fields_typed(field_list(*fields)),
{
    let v = match fields {
        Fields::Named(v) => v,
        Fields::Unnamed(v) => v,
        Fields::Unit => {
            return true;
        },
    };
    let mut i: usize = 0;
    while i < v.len()
        invariant
            i <= v@.len(),
            field_list(*fields) == v@,
            forall|j: int| 0 <= j < i ==> field_typed(#[trigger] v@[j]),
        decreases v@.len() - i,
    {
        let f = &v[i];
        if !should_skip(&f.attrs) && !is_compact(f) && f.ty.is_none() {
            assert(!field_typed(v@[i as int]));
            return false;
        }
        i = i + 1;
    }
    true
}

/// Builds the description of a type definition.
pub fn metadata(input: &DeriveInput) -> (r: Metadata)
    requires
        describable(*input),
    ensures
        r@ == spec_metadata(*input),
{
    match &input.data {
        Data::Struct(fields) => metadata_for_structs(&input.ident, fields),
        Data::Enum(variants) => metadata_for_enums(&input.ident, variants),
        Data::Union => vstd::pervasive::unreached(),
    }
}


// ---------------------------------------------------------------------------
// The generated implementation
// ---------------------------------------------------------------------------

/// The value of a generic parameter: its name and its declaration.
pub enum GenericParamSpec {
    Type(Seq<char>, Seq<char>),
    Lifetime(Seq<char>, Seq<char>),
    Const(Seq<char>, Seq<char>),
}

impl View for GenericParam {
    type V = GenericParamSpec;

    open spec fn view(&self) -> GenericParamSpec {
        match self {
            GenericParam::Type(n, d) => GenericParamSpec::Type(n@, d@),
            GenericParam::Lifetime(n, d) => GenericParamSpec::Lifetime(n@, d@),
            GenericParam::Const(n, d) => GenericParamSpec::Const(n@, d@),
        }
    }
}

/// The name by which a generic parameter is passed as an argument of the type.
pub open spec fn spec_generic_ident(p: GenericParamSpec) -> Seq<char> {
    match p {
        GenericParamSpec::Type(n, _) => n,
        GenericParamSpec::Lifetime(n, _) => n,
        GenericParamSpec::Const(n, _) => n,
    }
}

/// The declaration of a generic parameter, with its bounds, as written.
pub open spec fn spec_param_declaration(p: GenericParamSpec) -> Seq<char> {
    match p {
        GenericParamSpec::Type(_, d) => d,
        GenericParamSpec::Lifetime(_, d) => d,
        GenericParamSpec::Const(_, d) => d,
    }
}

/// The name by which a generic parameter is passed as an argument of the type.
pub fn generic_ident(param: &GenericParam) -> (r: String)
    ensures
        r@ == spec_generic_ident(param@),
{
    match param {
        GenericParam::Type(n, _) => n.clone(),
        GenericParam::Lifetime(n, _) => n.clone(),
        GenericParam::Const(n, _) => n.clone(),
    }
}

/// The declaration of a generic parameter, with its bounds, as written.
fn param_declaration(param: &GenericParam) -> (r: String)
    ensures
        r@ == spec_param_declaration(param@),
{
    match param {
        GenericParam::Type(_, d) => d.clone(),
        GenericParam::Lifetime(_, d) => d.clone(),
        GenericParam::Const(_, d) => d.clone(),
    }
}

/// The generics of the generated implementation: the declarations of the parameters it
/// declares (with their bounds), the arguments it applies the type to, and its `where`
/// clause.
pub struct ImplGenerics {
    pub params: Vec<String>,
    pub type_args: Vec<String>,
    pub where_clause: Option<String>,
}

/// `r` declares the parameters of `g` as they are declared in `g`, bounds included,
/// applies the type to their names in the same order, and keeps the `where` clause;
/// a definition without parameters gets none of the three.
pub open spec fn generics_match(r: ImplGenerics, g: Generics) -> bool {
    if g.params@.len() == 0 {
        &&& r.params@.len() == 0
        &&& r.type_args@.len() == 0
        &&& r.where_clause is None
    } else {
        &&& r.params@.len() == g.params@.len()
        &&& r.type_args@.len() == g.params@.len()
        &&& forall|i: int|
            0 <= i < g.params@.len() ==> #[trigger] r.params@[i]@ == spec_param_declaration(
                g.params@[i]@,
            )
        &&& forall|i: int|
            0 <= i < g.params@.len() ==> #[trigger] r.type_args@[i]@ == spec_generic_ident(
                g.params@[i]@,
            )
        &&& opt_str_view(r.where_clause) == opt_str_view(g.where_clause)
    }
}

/// Computes the generics of the generated implementation.
pub fn generics(g: &Generics) -> (r: ImplGenerics)
    ensures
        generics_match(r, *g),
{
    if g.params.len() == 0 {
        return ImplGenerics { params: Vec::new(), type_args: Vec::new(), where_clause: None };
    }
    let mut params: Vec<String> = Vec::new();
    let mut type_args: Vec<String> = Vec::new();
    let mut i: usize = 0;
    while i < g.params.len()
        invariant
            i <= g.params@.len(),
            params@.len() == i,
            type_args@.len() == i,
            forall|j: int|
                0 <= j < i ==> #[trigger] params@[j]@ == spec_param_declaration(g.params@[j]@),
            forall|j: int|
                0 <= j < i ==> #[trigger] type_args@[j]@ == spec_generic_ident(g.params@[j]@),
        decreases g.params@.len() - i,
    {
        params.push(param_declaration(&g.params[i]));
        type_args.push(generic_ident(&g.params[i]));
        i = i + 1;
    }
    ImplGenerics { params, type_args, where_clause: copy_name(&g.where_clause) }
}

/// What the derive generates for a type: an implementation of `Introspect` for the
/// type named `self_ty`, with the given generics, whose `introspect` returns `metadata`.
pub struct IntrospectImpl {
    pub self_ty: String,
    pub generics: ImplGenerics,
    pub metadata: Metadata,
}

/// The texts `ss`, separated by `", "`.
pub open spec fn join_comma(ss: Seq<Seq<char>>) -> Seq<char>
    decreases ss.len(),
{
    if ss.len() == 0 {
        Seq::empty()
    } else if ss.len() == 1 {
        ss[0]
    } else {
        join_comma(ss.drop_last()) + ", "@ + ss.last()
    }
}

/// The texts `ss`, each followed by `","`.
pub open spec fn each_then_comma(ss: Seq<Seq<char>>) -> Seq<char>
    decreases ss.len(),
{
    if ss.len() == 0 {
        Seq::empty()
    } else {
        each_then_comma(ss.drop_last()) + ss.last() + ","@
    }
}

/// The texts of a sequence of strings.
pub open spec fn texts(v: Seq<String>) -> Seq<Seq<char>> {
    v.map_values(|s: String| s@)
}

/// The header of the implementation generated for the type named `self_ty` with the
/// generics `g`: `impl<P1, P2> iroha_introspect::Introspect for Name<A1,A2,> where ..`,
/// where the parameters `Pi` are declared with their bounds, the arguments `Ai` are
/// their names, and each part is left out where it is empty.
pub open spec fn spec_impl_header(self_ty: Seq<char>, g: ImplGenerics) -> Seq<char> {
    let params = texts(g.params@);
    let args = texts(g.type_args@);
    "impl"@ + (if params.len() == 0 {
        Seq::empty()
    } else {
        "<"@ + join_comma(params) + ">"@
    }) + " iroha_introspect::Introspect for "@ + self_ty + (if args.len() == 0 {
        Seq::empty()
    } else {
        "<"@ + each_then_comma(args) + ">"@
    }) + (match g.where_clause {
        Some(w) => " "@ + w@,
        None => Seq::empty(),
    })
}

/// Appends the texts of `v`, separated by `", "`.
fn push_joined(out: &mut String, v: &Vec<String>)
    ensures
        final(out)@ == old(out)@ + join_comma(texts(v@)),
{
    let ghost start = out@;
    let mut i: usize = 0;
    while i < v.len()
        invariant
            i <= v@.len(),
            out@ == start + join_comma(texts(v@.take(i as int))),
        decreases v@.len() - i,
    {
        let ghost before = texts(v@.take(i as int));
        assert(texts(v@.take(i + 1)).drop_last() =~= before);
        assert(texts(v@.take(i + 1)).last() == v@[i as int]@);
        if i > 0 {
            out.append(", ");
        }
        out.append(v[i].as_str());
        proof {
            if i == 0 {
                assert(before =~= Seq::<Seq<char>>::empty());
                assert(out@ =~= start + join_comma(texts(v@.take(i + 1))));
            } else {
                assert(out@ =~= start + join_comma(texts(v@.take(i + 1))));
            }
        }
        i = i + 1;
    }
    assert(v@.take(v@.len() as int) =~= v@);
}

/// Appends the texts of `v`, each followed by `","`.
fn push_each_then_comma(out: &mut String, v: &Vec<String>)
    ensures
        final(out)@ == old(out)@ + each_then_comma(texts(v@)),
{
    let ghost start = out@;
    let mut i: usize = 0;
    while i < v.len()
        invariant
            i <= v@.len(),
            out@ == start + each_then_comma(texts(v@.take(i as int))),
        decreases v@.len() - i,
    {
        let ghost before = texts(v@.take(i as int));
        assert(texts(v@.take(i + 1)).drop_last() =~= before);
        assert(texts(v@.take(i + 1)).last() == v@[i as int]@);
        out.append(v[i].as_str());
        out.append(",");
        assert(out@ =~= start + each_then_comma(texts(v@.take(i + 1))));
        i = i + 1;
    }
    assert(v@.take(v@.len() as int) =~= v@);
}

impl IntrospectImpl {
    /// The header of the generated implementation, as text.
    pub fn header(&self) -> (r: String)
        ensures
            r@ == spec_impl_header(self.self_ty@, self.generics),
    {
        let g = &self.generics;
        let mut out = String::new();
        out.append("impl");
        let ghost a = out@;
        if g.params.len() > 0 {
            out.append("<");
            push_joined(&mut out, &g.params);
            out.append(">");
        }
        let ghost b = out@;
        out.append(" iroha_introspect::Introspect for ");
        out.append(self.self_ty.as_str());
        let ghost c = out@;
        if g.type_args.len() > 0 {
            out.append("<");
            push_each_then_comma(&mut out, &g.type_args);
            out.append(">");
        }
        let ghost d = out@;
        match &g.where_clause {
            Some(w) => {
                out.append(" ");
                out.append(w.as_str());
            },
            None => {},
        }
        proof {
            let params = texts(g.params@);
            let args = texts(g.type_args@);
            assert(a =~= "impl"@);
            assert(b =~= a + (if params.len() == 0 {
                Seq::empty()
            } else {
                "<"@ + join_comma(params) + ">"@
            }));
            assert(c =~= b + " iroha_introspect::Introspect for "@ + self.self_ty@);
            assert(d =~= c + (if args.len() == 0 {
                Seq::empty()
            } else {
                "<"@ + each_then_comma(args) + ">"@
            }));
            assert(out@ =~= spec_impl_header(self.self_ty@, self.generics));
        }
        out
    }
}

/// Computes the implementation generated for a type definition.
pub fn impl_introspect(input: &DeriveInput) -> (r: IntrospectImpl)
    requires
        describable(*input),
    ensures
        r.self_ty@ == input.ident@,
        generics_match(r.generics, input.generics),
        r.metadata@ == spec_metadata(*input),
{
    IntrospectImpl {
        self_ty: input.ident.clone(),
        generics: generics(&input.generics),
        metadata: metadata(input),
    }
}


// ---------------------------------------------------------------------------
// Laws
// ---------------------------------------------------------------------------

/// When no field is marked `#[codec(skip)]`, every field is declared, in order, under
/// its own name, as a compact integer when marked so and as its own type otherwise.
pub proof fn law_fields_declared_in_order(fields: Seq<Field>)
    requires
        forall|i: int| 0 <= i < fields.len() ==> !spec_should_skip(#[trigger] fields[i].attrs@),
    ensures
        spec_declarations(fields).len() == fields.len(),
        forall|i: int|
            0 <= i < fields.len() ==> #[trigger] spec_declarations(fields)[i] == field_declaration(
                fields[i],
            ),
    decreases fields.len(),
{
    if fields.len() > 0 {
        let init = fields.drop_last();
        assert forall|i: int| 0 <= i < init.len() implies !spec_should_skip(
            #[trigger] init[i].attrs@,
        ) by {
            assert(init[i] == fields[i]);
        }
        law_fields_declared_in_order(init);
        assert(!spec_should_skip(fields[fields.len() - 1].attrs@));
    }
}

/// A field marked `#[codec(skip)]` adds no declaration: the declarations of a list with
/// one more field are those of the list alone.
pub proof fn law_skipped_field_dropped(fields: Seq<Field>, f: Field)
    requires
        spec_should_skip(f.attrs@),
    ensures
        spec_declarations(fields.push(f)) == spec_declarations(fields),
{
    assert(fields.push(f).drop_last() =~= fields);
}

/// There are never more declarations than fields.
pub proof fn law_declarations_bounded(fields: Seq<Field>)
    ensures
        spec_declarations(fields).len() <= fields.len(),
    decreases fields.len(),
{
    if fields.len() > 0 {
        law_declarations_bounded(fields.drop_last());
    }
}

/// Variants without an index attribute or an explicit discriminant are numbered by
/// their position; every variant keeps its name and its place.
pub proof fn law_default_discriminants(variants: Seq<Variant>)
    requires
        forall|i: int|
            0 <= i < variants.len() ==> #[trigger] first_index(variants[i].attrs@) is None
                && variants[i].discriminant is None,
    ensures
        spec_variants(variants).len() == variants.len(),
        forall|i: int|
            0 <= i < variants.len() ==> (#[trigger] spec_variants(variants)[i]).discriminant == (
            i as u8) && spec_variants(variants)[i].name == variants[i].ident@,
{
}

/// An index attribute decides the discriminant, whatever the explicit discriminant.
pub proof fn law_index_attribute_wins(v: Variant, i: int, n: u128)
    requires
        first_index(v.attrs@) == Some(n),
        n <= 255,
    ensures
        spec_variant_index(v, i) == n,
{
}

/// Without an index attribute, an explicit discriminant decides, cast to a byte.
pub proof fn law_explicit_discriminant(v: Variant, i: int, d: i128)
    requires
        first_index(v.attrs@) is None,
        v.discriminant == Some(d),
    ensures
        spec_variant_index(v, i) == d as u8,
{
}

} // verus!
