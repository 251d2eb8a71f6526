//! Queries related to permission tokens.
use vstd::prelude::*;

use crate::introspect::{
    lemma_decls_spec_empty, named_decl_spec, named_declaration, push_declaration, struct_metadata,
    Introspect,
};
use crate::metadata::{DeclSpec, Declaration, MetaSpec, Metadata};
use crate::model::{AccountId, EvaluatesTo};
use crate::scale::{is_prefix, ScaleDecode, ScaleEncode};

verus! {

/// `FindPermissionTokensByAccountId` Iroha Query will find an `Role`s for a specified account.
#[derive(Debug, Clone, PartialEq, Eq, PartialOrd, Ord, Hash)]
pub struct FindPermissionTokensByAccountId {
    /// `Id` of an account to find.
    pub id: EvaluatesTo<AccountId>,
}

impl FindPermissionTokensByAccountId {
    /// Default `FindPermissionTokensByAccountId` constructor.
    pub fn new(id: EvaluatesTo<AccountId>) -> (r: FindPermissionTokensByAccountId)
        ensures
            r == (FindPermissionTokensByAccountId { id }),
    {
        FindPermissionTokensByAccountId { id }
    }
}

impl ScaleEncode for FindPermissionTokensByAccountId {
    open spec fn encodable(&self) -> bool {
        self.id.encodable()
    }

    open spec fn spec_encoding(&self) -> Seq<u8> {
        self.id.spec_encoding()
    }

    fn encode_to(&self, out: &mut Vec<u8>) {
        self.id.encode_to(out);
    }
}

impl DeepView for FindPermissionTokensByAccountId {
    type V = (Seq<char>, Seq<char>);

    open spec fn deep_view(&self) -> (Seq<char>, Seq<char>) {
        self.id.deep_view()
    }
}

impl ScaleDecode for FindPermissionTokensByAccountId {
    proof fn lemma_encoding_determined(a: Self, b: Self) {
        <EvaluatesTo<AccountId> as ScaleDecode>::lemma_encoding_determined(a.id, b.id);
    }

    proof fn lemma_encoding_injective(a: Self, b: Self) {
        <EvaluatesTo<AccountId> as ScaleDecode>::lemma_encoding_injective(a.id, b.id);
    }

    proof fn lemma_prefix_free(a: Self, b: Self) {
        <EvaluatesTo<AccountId> as ScaleDecode>::lemma_prefix_free(a.id, b.id);
    }

    fn decode_from(input: &[u8]) -> (r: Option<(Self, usize)>) {
        match <EvaluatesTo<AccountId> as ScaleDecode>::decode_from(input) {
            Some((id, n)) => Some((FindPermissionTokensByAccountId { id }, n)),
            None => {
                assert forall|v: FindPermissionTokensByAccountId|
                    v.encodable() implies !is_prefix(#[trigger] v.spec_encoding(), input@) by {
                    assert(v.id.encodable());
                }
                None
            },
        }
    }
}

impl Introspect for FindPermissionTokensByAccountId {
    open spec fn spec_introspect() -> MetaSpec {
        let id = <EvaluatesTo<AccountId> as Introspect>::spec_introspect();
        MetaSpec::Struct(
            "FindPermissionTokensByAccountId"@,
            Seq::empty()
                .push(named_decl_spec("id"@, id)),
        )
    }

    fn introspect() -> (m: Metadata) {
        let mut declarations: Vec<Declaration> = Vec::new();
        proof {
            lemma_decls_spec_empty();
        }
        let d = <EvaluatesTo<AccountId> as Introspect>::introspect();
        push_declaration(&mut declarations, named_declaration("id", d));
        struct_metadata("FindPermissionTokensByAccountId", declarations)
    }
}

/// Each of these types is encoded as its fields, one after the other, in the order in
/// which they are declared (a type without fields as no bytes at all).
pub proof fn law_permissions_encodings_follow_field_order()
    ensures
        forall|v0: EvaluatesTo<AccountId>|
            #[trigger] (FindPermissionTokensByAccountId { id: v0 }).spec_encoding()
                == v0.spec_encoding(),
{
}

/// Each of these types is described as a struct under its own name that declares its
/// fields, under their names, in the order in which they are declared (the order of the
/// encoding), each described as its own type.
pub proof fn law_permissions_descriptions_follow_field_order()
    ensures
        FindPermissionTokensByAccountId::spec_introspect() == MetaSpec::Struct(
            "FindPermissionTokensByAccountId"@,
            seq![
                DeclSpec {
                    name: Some("id"@),
                    definition: <EvaluatesTo<AccountId> as Introspect>::spec_introspect(),
                },
            ],
        ),
{
}

} // verus!
