//! The description of a type's layout on the wire.
use vstd::prelude::*;

verus! {

/// How an integer is laid out: in its full width, or in the compact encoding.
#[derive(Debug, PartialEq, Eq, Hash, PartialOrd, Ord)]
pub enum Mode {
    FixedWidth,
    Compact,
}

/// Description of an integer type.
#[derive(Debug, PartialEq, Eq, Hash, PartialOrd, Ord)]
pub struct IntMeta {
    pub mode: Mode,
}

/// Description of a type.
#[derive(Debug, PartialEq, Eq, Hash, PartialOrd, Ord)]
pub enum Metadata {
    Int(IntMeta),
    Struct(StructMeta),
    Enum(EnumMeta),
    String,
    Bool,
    Vec(SingleContainer),
    Option(SingleContainer),
    Result(ResultMeta),
}

/// Description of a struct: its name and its fields in declaration order.
#[derive(Debug, PartialEq, Eq, Hash, PartialOrd, Ord)]
pub struct StructMeta {
    pub ident: String,
    pub declarations: Vec<Declaration>,
}

/// Description of a container of one element type.
#[derive(Debug, PartialEq, Eq, Hash, PartialOrd, Ord)]
pub struct SingleContainer {
    pub item: Box<Metadata>,
}

/// Description of an enum: its name and its variants in declaration order.
#[derive(Debug, PartialEq, Eq, Hash, PartialOrd, Ord)]
pub struct EnumMeta {
    pub ident: String,
    pub variants: Vec<EnumVariant>,
}

/// Description of one enum variant: its name, its discriminant byte and its fields.
#[derive(Debug, PartialEq, Eq, Hash, PartialOrd, Ord)]
pub struct EnumVariant {
    pub name: String,
    pub discriminant: u8,
    pub declarations: Vec<Declaration>,
}

/// Description of a `Result`: its success and its error type.
#[derive(Debug, PartialEq, Eq, Hash, PartialOrd, Ord)]
pub struct ResultMeta {
    pub ok: Box<Metadata>,
    pub err: Box<Metadata>,
}

/// Description of one field: its name (none for a tuple field) and its type.
#[derive(Debug, PartialEq, Eq, Hash, PartialOrd, Ord)]
pub struct Declaration {
    pub name: Option<String>,
    pub definition: Box<Metadata>,
}


/// The mathematical value of a [`Metadata`]: names as character sequences,
/// field and variant lists as sequences.
pub enum MetaSpec {
    Int(Mode),
    Struct(Seq<char>, Seq<DeclSpec>),
    Enum(Seq<char>, Seq<VariantSpec>),
    String,
    Bool,
    Vec(Box<MetaSpec>),
    Option(Box<MetaSpec>),
    Result(Box<MetaSpec>, Box<MetaSpec>),
}

/// The mathematical value of a [`Declaration`].
pub struct DeclSpec {
    pub name: Option<Seq<char>>,
    pub definition: MetaSpec,
}

/// The mathematical value of an [`EnumVariant`].
pub struct VariantSpec {
    pub name: Seq<char>,
    pub discriminant: u8,
    pub declarations: Seq<DeclSpec>,
}

/// The view of an optional string.
pub open spec fn opt_str_view(s: Option<String>) -> Option<Seq<char>> {
    match s {
        Some(t) => Some(t@),
        None => None,
    }
}

/// The value of a description.
pub open spec fn meta_spec(m: Metadata) -> MetaSpec
    decreases m, 0nat,
{
    match m {
        Metadata::Int(i) => MetaSpec::Int(i.mode),
        Metadata::Struct(s) => {
            proof {
                broadcast use vstd::std_specs::vec::axiom_vec_decreases_to_view;
                assert(decreases_to!(s.declarations => s.declarations@));
            }
            MetaSpec::Struct(s.ident@, decls_spec(s.declarations@))
        },
        Metadata::Enum(e) => {
            proof {
                broadcast use vstd::std_specs::vec::axiom_vec_decreases_to_view;
                assert(decreases_to!(e.variants => e.variants@));
            }
            MetaSpec::Enum(e.ident@, variants_spec(e.variants@))
        },
        Metadata::String => MetaSpec::String,
        Metadata::Bool => MetaSpec::Bool,
        Metadata::Vec(c) => MetaSpec::Vec(Box::new(meta_spec(*c.item))),
        Metadata::Option(c) => MetaSpec::Option(Box::new(meta_spec(*c.item))),
        Metadata::Result(r) => MetaSpec::Result(
            Box::new(meta_spec(*r.ok)),
            Box::new(meta_spec(*r.err)),
        ),
    }
}

/// The value of one field description.
pub open spec fn decl_spec(d: Declaration) -> DeclSpec
    decreases d, 0nat,
{
    DeclSpec { name: opt_str_view(d.name), definition: meta_spec(*d.definition) }
}

/// The value of a list of field descriptions.
pub open spec fn decls_spec(ds: Seq<Declaration>) -> Seq<DeclSpec>
    decreases ds, 0nat,
{
    if ds.len() == 0 {
        Seq::empty()
    } else {
        proof {
            assert(decreases_to!(ds => ds[ds.len() - 1]));
        }
        decls_spec(ds.drop_last()).push(decl_spec(ds[ds.len() - 1]))
    }
}

/// The value of one variant description.
pub open spec fn variant_spec(v: EnumVariant) -> VariantSpec
    decreases v, 0nat,
{
    proof {
        broadcast use vstd::std_specs::vec::axiom_vec_decreases_to_view;
        assert(decreases_to!(v.declarations => v.declarations@));
    }
    VariantSpec {
        name: v.name@,
        discriminant: v.discriminant,
        declarations: decls_spec(v.declarations@),
    }
}

/// The value of a list of variant descriptions.
pub open spec fn variants_spec(vs: Seq<EnumVariant>) -> Seq<VariantSpec>
    decreases vs, 0nat,
{
    if vs.len() == 0 {
        Seq::empty()
    } else {
        proof {
            assert(decreases_to!(vs => vs[vs.len() - 1]));
        }
        variants_spec(vs.drop_last()).push(variant_spec(vs[vs.len() - 1]))
    }
}

impl View for Metadata {
    type V = MetaSpec;

    open spec fn view(&self) -> MetaSpec {
        meta_spec(*self)
    }
}

impl View for Declaration {
    type V = DeclSpec;

    open spec fn view(&self) -> DeclSpec {
        decl_spec(*self)
    }
}


impl Mode {
    /// A copy of this mode.
    pub fn copied(&self) -> (r: Mode)
        ensures
            r == *self,
    {
        match self {
            Mode::FixedWidth => Mode::FixedWidth,
            Mode::Compact => Mode::Compact,
        }
    }
}

/// A copy of an optional name.
pub fn copy_name(name: &Option<String>) -> (r: Option<String>)
    ensures
        opt_str_view(r) == opt_str_view(*name),
{
    match name {
        Some(s) => Some(s.clone()),
        None => None,
    }
}

impl Metadata {
    /// A copy of this description, equal to it in value.
    pub fn deep_copy(&self) -> (r: Metadata)
        ensures
            r@ == self@,
        decreases self, 1nat,
    {
        match self {
            Metadata::Int(i) => Metadata::Int(IntMeta { mode: i.mode.copied() }),
            Metadata::Struct(s) => {
                let declarations = copy_declarations(&s.declarations);
                Metadata::Struct(StructMeta { ident: s.ident.clone(), declarations })
            },
            Metadata::Enum(e) => {
                let variants = copy_variants(&e.variants);
                Metadata::Enum(EnumMeta { ident: e.ident.clone(), variants })
            },
            Metadata::String => Metadata::String,
            Metadata::Bool => Metadata::Bool,
            Metadata::Vec(c) => Metadata::Vec(
                SingleContainer { item: Box::new(c.item.deep_copy()) },
            ),
            Metadata::Option(c) => Metadata::Option(
                SingleContainer { item: Box::new(c.item.deep_copy()) },
            ),
            Metadata::Result(r) => Metadata::Result(
                ResultMeta { ok: Box::new(r.ok.deep_copy()), err: Box::new(r.err.deep_copy()) },
            ),
        }
    }
}

/// One more step of [`decls_spec`]: the value of a list grown by one element.
pub proof fn lemma_decls_spec_push(ds: Seq<Declaration>, d: Declaration)
    ensures
        decls_spec(ds.push(d)) == decls_spec(ds).push(decl_spec(d)),
{
    assert(ds.push(d).drop_last() =~= ds);
}

/// One more step of [`variants_spec`]: the value of a list grown by one element.
pub proof fn lemma_variants_spec_push(vs: Seq<EnumVariant>, v: EnumVariant)
    ensures
        variants_spec(vs.push(v)) == variants_spec(vs).push(variant_spec(v)),
{
    assert(vs.push(v).drop_last() =~= vs);
}

/// A copy of a list of field descriptions, equal to it in value.
pub fn copy_declarations(ds: &Vec<Declaration>) -> (r: Vec<Declaration>)
    ensures
        decls_spec(r@) == decls_spec(ds@),
    decreases ds, 0nat,
{
    let mut out: Vec<Declaration> = Vec::new();
    let mut i: usize = 0;
    while i < ds.len()
        invariant
            i <= ds.len(),
            decls_spec(out@) == decls_spec(ds@.take(i as int)),
        decreases ds.len() - i,
    {
        proof {
            broadcast use vstd::std_specs::vec::axiom_vec_decreases_to_view;
            assert(decreases_to!(ds@ => ds@[i as int]));
        }
        let d = Declaration {
            name: copy_name(&ds[i].name),
            definition: Box::new(ds[i].definition.deep_copy()),
        };
        proof {
            lemma_decls_spec_push(out@, d);
            lemma_decls_spec_push(ds@.take(i as int), ds@[i as int]);
            assert(ds@.take(i as int).push(ds@[i as int]) =~= ds@.take(i + 1));
        }
        out.push(d);
        i = i + 1;
    }
    assert(ds@.take(ds.len() as int) =~= ds@);
    out
}

/// A copy of a list of variant descriptions, equal to it in value.
pub fn copy_variants(vs: &Vec<EnumVariant>) -> (r: Vec<EnumVariant>)
    ensures
        variants_spec(r@) == variants_spec(vs@),
    decreases vs, 0nat,
{
    let mut out: Vec<EnumVariant> = Vec::new();
    let mut i: usize = 0;
    while i < vs.len()
        invariant
            i <= vs.len(),
            variants_spec(out@) == variants_spec(vs@.take(i as int)),
        decreases vs.len() - i,
    {
        proof {
            broadcast use vstd::std_specs::vec::axiom_vec_decreases_to_view;
            assert(decreases_to!(vs@ => vs@[i as int]));
        }
        let v = EnumVariant {
            name: vs[i].name.clone(),
            discriminant: vs[i].discriminant,
            declarations: copy_declarations(&vs[i].declarations),
        };
        proof {
            lemma_variants_spec_push(out@, v);
            lemma_variants_spec_push(vs@.take(i as int), vs@[i as int]);
            assert(vs@.take(i as int).push(vs@[i as int]) =~= vs@.take(i + 1));
        }
        out.push(v);
        i = i + 1;
    }
    assert(vs@.take(vs.len() as int) =~= vs@);
    out
}

} // verus!
