//! Queries related to domains.
use vstd::prelude::*;

use crate::introspect::{
    lemma_decls_spec_empty, named_decl_spec, named_declaration, push_declaration, struct_metadata,
    Introspect,
};
use crate::metadata::{DeclSpec, Declaration, MetaSpec, Metadata};
use crate::model::{EvaluatesTo, Name};
use crate::scale::{is_prefix, ScaleDecode, ScaleEncode};

verus! {

/// `FindAllDomains` Iroha Query will find all `Domain`s presented in Iroha `Peer`.
#[derive(Debug, Default, Clone, Copy, PartialEq, Eq, PartialOrd, Ord, Hash)]
pub struct FindAllDomains {}

impl FindAllDomains {
    /// Default `FindAllDomains` constructor.
    pub fn new() -> (r: FindAllDomains)
        ensures
            r == (FindAllDomains {}),
    {
        FindAllDomains {}
    }
}

impl ScaleEncode for FindAllDomains {
    open spec fn encodable(&self) -> bool {
        true
    }

    open spec fn spec_encoding(&self) -> Seq<u8> {
        Seq::empty()
    }

    fn encode_to(&self, out: &mut Vec<u8>) {
        assert(old(out)@ + self.spec_encoding() =~= old(out)@);
    }
}

/// `FindDomainByName` Iroha Query will find a `Domain` by it's identification in Iroha `Peer`.
#[derive(Debug, Clone, PartialEq, Eq, PartialOrd, Ord, Hash)]
pub struct FindDomainByName {
    /// Name of the domain to find.
    pub name: EvaluatesTo<Name>,
}

impl FindDomainByName {
    /// Default `FindDomainByName` constructor.
    pub fn new(name: EvaluatesTo<Name>) -> (r: FindDomainByName)
        ensures
            r == (FindDomainByName { name }),
    {
        FindDomainByName { name }
    }
}

impl ScaleEncode for FindDomainByName {
    open spec fn encodable(&self) -> bool {
        self.name.encodable()
    }

    open spec fn spec_encoding(&self) -> Seq<u8> {
        self.name.spec_encoding()
    }

    fn encode_to(&self, out: &mut Vec<u8>) {
        self.name.encode_to(out);
    }
}

impl DeepView for FindAllDomains {
    type V = ();

    open spec fn deep_view(&self) -> () {
        ()
    }
}

impl ScaleDecode for FindAllDomains {
    proof fn lemma_encoding_determined(a: Self, b: Self) {
    }

    proof fn lemma_encoding_injective(a: Self, b: Self) {
    }

    proof fn lemma_prefix_free(a: Self, b: Self) {
    }

    fn decode_from(input: &[u8]) -> (r: Option<(Self, usize)>) {
        assert(input@.take(0) =~= Seq::<u8>::empty());
        Some((FindAllDomains {}, 0))
    }
}

impl DeepView for FindDomainByName {
    type V = Seq<char>;

    open spec fn deep_view(&self) -> Seq<char> {
        self.name.deep_view()
    }
}

impl ScaleDecode for FindDomainByName {
    proof fn lemma_encoding_determined(a: Self, b: Self) {
        <EvaluatesTo<Name> as ScaleDecode>::lemma_encoding_determined(a.name, b.name);
    }

    proof fn lemma_encoding_injective(a: Self, b: Self) {
        <EvaluatesTo<Name> as ScaleDecode>::lemma_encoding_injective(a.name, b.name);
    }

    proof fn lemma_prefix_free(a: Self, b: Self) {
        <EvaluatesTo<Name> as ScaleDecode>::lemma_prefix_free(a.name, b.name);
    }

    fn decode_from(input: &[u8]) -> (r: Option<(Self, usize)>) {
        match <EvaluatesTo<Name> as ScaleDecode>::decode_from(input) {
            Some((name, n)) => Some((FindDomainByName { name }, n)),
            None => {
                assert forall|v: FindDomainByName|
                    v.encodable() implies !is_prefix(#[trigger] v.spec_encoding(), input@) by {
                    assert(v.name.encodable());
                }
                None
            },
        }
    }
}

impl Introspect for FindAllDomains {
    open spec fn spec_introspect() -> MetaSpec {
        MetaSpec::Struct("FindAllDomains"@, Seq::empty())
    }

    fn introspect() -> (m: Metadata) {
        let mut declarations: Vec<Declaration> = Vec::new();
        proof {
            lemma_decls_spec_empty();
        }
        struct_metadata("FindAllDomains", declarations)
    }
}

impl Introspect for FindDomainByName {
    open spec fn spec_introspect() -> MetaSpec {
        let name = <EvaluatesTo<Name> as Introspect>::spec_introspect();
        MetaSpec::Struct("FindDomainByName"@, Seq::empty().push(named_decl_spec("name"@, name)))
    }

    fn introspect() -> (m: Metadata) {
        let mut declarations: Vec<Declaration> = Vec::new();
        proof {
            lemma_decls_spec_empty();
        }
        let d = <EvaluatesTo<Name> as Introspect>::introspect();
        push_declaration(&mut declarations, named_declaration("name", d));
        struct_metadata("FindDomainByName", declarations)
    }
}

/// Each of these types is encoded as its fields, one after the other, in the order in
/// which they are declared (a type without fields as no bytes at all).
pub proof fn law_domain_encodings_follow_field_order()
    ensures
        forall|x: FindAllDomains| #[trigger] x.spec_encoding() == Seq::<u8>::empty(),
        forall|v0: EvaluatesTo<Name>|
            #[trigger] (FindDomainByName { name: v0 }).spec_encoding() == v0.spec_encoding(),
{
}

/// Each of these types is described as a struct under its own name that declares its
/// fields, under their names, in the order in which they are declared (the order of the
/// encoding), each described as its own type.
pub proof fn law_domain_descriptions_follow_field_order()
    ensures
        FindAllDomains::spec_introspect() == MetaSpec::Struct("FindAllDomains"@, seq![]),
        FindDomainByName::spec_introspect() == MetaSpec::Struct(
            "FindDomainByName"@,
            seq![
                DeclSpec {
                    name: Some("name"@),
                    definition: <EvaluatesTo<Name> as Introspect>::spec_introspect(),
                },
            ],
        ),
{
}

} // verus!
