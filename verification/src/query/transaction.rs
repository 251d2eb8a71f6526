//! Queries related to transactions.
use vstd::prelude::*;

use crate::introspect::{
    lemma_decls_spec_empty, named_decl_spec, named_declaration, push_declaration, struct_metadata,
    Introspect,
};
use crate::metadata::{DeclSpec, Declaration, MetaSpec, Metadata};
use crate::model::{AccountId, EvaluatesTo};
use crate::scale::{is_prefix, ScaleDecode, ScaleEncode};

verus! {

/// `FindTransactionsByAccountId` Iroha Query will find all transaction included in blockchain
/// for the account
#[derive(Debug, Clone, PartialEq, Eq, PartialOrd, Ord, Hash)]
pub struct FindTransactionsByAccountId {
    /// Signer's `AccountId` under which transactions should be found.
    pub account_id: EvaluatesTo<AccountId>,
}

impl FindTransactionsByAccountId {
    /// Default `FindTransactionsByAccountId` constructor.
    pub fn new(account_id: EvaluatesTo<AccountId>) -> (r: FindTransactionsByAccountId)
        ensures
            r == (FindTransactionsByAccountId { account_id }),
    {
        FindTransactionsByAccountId { account_id }
    }
}

impl ScaleEncode for FindTransactionsByAccountId {
    open spec fn encodable(&self) -> bool {
        self.account_id.encodable()
    }

    open spec fn spec_encoding(&self) -> Seq<u8> {
        self.account_id.spec_encoding()
    }

    fn encode_to(&self, out: &mut Vec<u8>) {
        self.account_id.encode_to(out);
    }
}

impl DeepView for FindTransactionsByAccountId {
    type V = (Seq<char>, Seq<char>);

    open spec fn deep_view(&self) -> (Seq<char>, Seq<char>) {
        self.account_id.deep_view()
    }
}

impl ScaleDecode for FindTransactionsByAccountId {
    proof fn lemma_encoding_determined(a: Self, b: Self) {
        <EvaluatesTo<AccountId> as ScaleDecode>::lemma_encoding_determined(a.account_id, b.account_id);
    }

    proof fn lemma_encoding_injective(a: Self, b: Self) {
        <EvaluatesTo<AccountId> as ScaleDecode>::lemma_encoding_injective(a.account_id, b.account_id);
    }

    proof fn lemma_prefix_free(a: Self, b: Self) {
        <EvaluatesTo<AccountId> as ScaleDecode>::lemma_prefix_free(a.account_id, b.account_id);
    }

    fn decode_from(input: &[u8]) -> (r: Option<(Self, usize)>) {
        match <EvaluatesTo<AccountId> as ScaleDecode>::decode_from(input) {
            Some((account_id, n)) => Some((FindTransactionsByAccountId { account_id }, n)),
            None => {
                assert forall|v: FindTransactionsByAccountId|
                    v.encodable() implies !is_prefix(#[trigger] v.spec_encoding(), input@) by {
                    assert(v.account_id.encodable());
                }
                None
            },
        }
    }
}

impl Introspect for FindTransactionsByAccountId {
    open spec fn spec_introspect() -> MetaSpec {
        let account_id = <EvaluatesTo<AccountId> as Introspect>::spec_introspect();
        MetaSpec::Struct(
            "FindTransactionsByAccountId"@,
            Seq::empty()
                .push(named_decl_spec("account_id"@, account_id)),
        )
    }

    fn introspect() -> (m: Metadata) {
        let mut declarations: Vec<Declaration> = Vec::new();
        proof {
            lemma_decls_spec_empty();
        }
        let d = <EvaluatesTo<AccountId> as Introspect>::introspect();
        push_declaration(&mut declarations, named_declaration("account_id", d));
        struct_metadata("FindTransactionsByAccountId", declarations)
    }
}

/// Each of these types is encoded as its fields, one after the other, in the order in
/// which they are declared (a type without fields as no bytes at all).
pub proof fn law_transaction_encodings_follow_field_order()
    ensures
        forall|v0: EvaluatesTo<AccountId>|
            #[trigger] (FindTransactionsByAccountId { account_id: v0 }).spec_encoding()
                == v0.spec_encoding(),
{
}

/// Each of these types is described as a struct under its own name that declares its
/// fields, under their names, in the order in which they are declared (the order of the
/// encoding), each described as its own type.
pub proof fn law_transaction_descriptions_follow_field_order()
    ensures
        FindTransactionsByAccountId::spec_introspect() == MetaSpec::Struct(
            "FindTransactionsByAccountId"@,
            seq![
                DeclSpec {
                    name: Some("account_id"@),
                    definition: <EvaluatesTo<AccountId> as Introspect>::spec_introspect(),
                },
            ],
        ),
{
}

} // verus!
