//! Queries related to roles.
use vstd::prelude::*;

use crate::introspect::{
    lemma_decls_spec_empty, named_decl_spec, named_declaration, push_declaration, struct_metadata,
    Introspect,
};
use crate::metadata::{DeclSpec, Declaration, MetaSpec, Metadata};
use crate::model::{AccountId, EvaluatesTo};
use crate::scale::{is_prefix, ScaleDecode, ScaleEncode};

verus! {

/// `FindAllRoles` Iroha Query will find all `Roles`s presented.
#[derive(Debug, Default, Clone, Copy, PartialEq, Eq, PartialOrd, Ord, Hash)]
pub struct FindAllRoles {}

impl FindAllRoles {
    /// Default `FindAllRoles` constructor.
    pub fn new() -> (r: FindAllRoles)
        ensures
            r == (FindAllRoles {}),
    {
        FindAllRoles {}
    }
}

impl ScaleEncode for FindAllRoles {
    open spec fn encodable(&self) -> bool {
        true
    }

    open spec fn spec_encoding(&self) -> Seq<u8> {
        Seq::empty()
    }

    fn encode_to(&self, out: &mut Vec<u8>) {
        assert(old(out)@ + self.spec_encoding() =~= old(out)@);
    }
}

/// `FindRolesByAccountId` Iroha Query will find an `Role`s for a specified account.
#[derive(Debug, Clone, PartialEq, Eq, PartialOrd, Ord, Hash)]
pub struct FindRolesByAccountId {
    /// `Id` of an account to find.
    pub id: EvaluatesTo<AccountId>,
}

impl FindRolesByAccountId {
    /// Default `FindRolesByAccountId` constructor.
    pub fn new(id: EvaluatesTo<AccountId>) -> (r: FindRolesByAccountId)
        ensures
            r == (FindRolesByAccountId { id }),
    {
        FindRolesByAccountId { id }
    }
}

impl ScaleEncode for FindRolesByAccountId {
    open spec fn encodable(&self) -> bool {
        self.id.encodable()
    }

    open spec fn spec_encoding(&self) -> Seq<u8> {
        self.id.spec_encoding()
    }

    fn encode_to(&self, out: &mut Vec<u8>) {
        self.id.encode_to(out);
    }
}

impl DeepView for FindAllRoles {
    type V = ();

    open spec fn deep_view(&self) -> () {
        ()
    }
}

impl ScaleDecode for FindAllRoles {
    proof fn lemma_encoding_determined(a: Self, b: Self) {
    }

    proof fn lemma_encoding_injective(a: Self, b: Self) {
    }

    proof fn lemma_prefix_free(a: Self, b: Self) {
    }

    fn decode_from(input: &[u8]) -> (r: Option<(Self, usize)>) {
        assert(input@.take(0) =~= Seq::<u8>::empty());
        Some((FindAllRoles {}, 0))
    }
}

impl DeepView for FindRolesByAccountId {
    type V = (Seq<char>, Seq<char>);

    open spec fn deep_view(&self) -> (Seq<char>, Seq<char>) {
        self.id.deep_view()
    }
}

impl ScaleDecode for FindRolesByAccountId {
    proof fn lemma_encoding_determined(a: Self, b: Self) {
        <EvaluatesTo<AccountId> as ScaleDecode>::lemma_encoding_determined(a.id, b.id);
    }

    proof fn lemma_encoding_injective(a: Self, b: Self) {
        <EvaluatesTo<AccountId> as ScaleDecode>::lemma_encoding_injective(a.id, b.id);
    }

    proof fn lemma_prefix_free(a: Self, b: Self) {
        <EvaluatesTo<AccountId> as ScaleDecode>::lemma_prefix_free(a.id, b.id);
    }

    fn decode_from(input: &[u8]) -> (r: Option<(Self, usize)>) {
        match <EvaluatesTo<AccountId> as ScaleDecode>::decode_from(input) {
            Some((id, n)) => Some((FindRolesByAccountId { id }, n)),
            None => {
                assert forall|v: FindRolesByAccountId|
                    v.encodable() implies !is_prefix(#[trigger] v.spec_encoding(), input@) by {
                    assert(v.id.encodable());
                }
                None
            },
        }
    }
}

impl Introspect for FindAllRoles {
    open spec fn spec_introspect() -> MetaSpec {
        MetaSpec::Struct("FindAllRoles"@, Seq::empty())
    }

    fn introspect() -> (m: Metadata) {
        let mut declarations: Vec<Declaration> = Vec::new();
        proof {
            lemma_decls_spec_empty();
        }
        struct_metadata("FindAllRoles", declarations)
    }
}

impl Introspect for FindRolesByAccountId {
    open spec fn spec_introspect() -> MetaSpec {
        let id = <EvaluatesTo<AccountId> as Introspect>::spec_introspect();
        MetaSpec::Struct("FindRolesByAccountId"@, Seq::empty().push(named_decl_spec("id"@, id)))
    }

    fn introspect() -> (m: Metadata) {
        let mut declarations: Vec<Declaration> = Vec::new();
        proof {
            lemma_decls_spec_empty();
        }
        let d = <EvaluatesTo<AccountId> as Introspect>::introspect();
        push_declaration(&mut declarations, named_declaration("id", d));
        struct_metadata("FindRolesByAccountId", declarations)
    }
}

/// Each of these types is encoded as its fields, one after the other, in the order in
/// which they are declared (a type without fields as no bytes at all).
pub proof fn law_role_encodings_follow_field_order()
    ensures
        forall|x: FindAllRoles| #[trigger] x.spec_encoding() == Seq::<u8>::empty(),
        forall|v0: EvaluatesTo<AccountId>|
            #[trigger] (FindRolesByAccountId { id: v0 }).spec_encoding() == v0.spec_encoding(),
{
}

/// Each of these types is described as a struct under its own name that declares its
/// fields, under their names, in the order in which they are declared (the order of the
/// encoding), each described as its own type.
pub proof fn law_role_descriptions_follow_field_order()
    ensures
        FindAllRoles::spec_introspect() == MetaSpec::Struct("FindAllRoles"@, seq![]),
        FindRolesByAccountId::spec_introspect() == MetaSpec::Struct(
            "FindRolesByAccountId"@,
            seq![
                DeclSpec {
                    name: Some("id"@),
                    definition: <EvaluatesTo<AccountId> as Introspect>::spec_introspect(),
                },
            ],
        ),
{
}

} // verus!
