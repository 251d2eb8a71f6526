//! Queries related to accounts.
use vstd::prelude::*;

use crate::introspect::{
    lemma_two_declarations,
    lemma_decls_spec_empty, named_decl_spec, named_declaration, push_declaration, struct_metadata,
    Introspect,
};
use crate::metadata::{DeclSpec, Declaration, MetaSpec, Metadata};
use crate::model::{AccountId, EvaluatesTo, Name};
use crate::scale::{
    decode_pair, is_prefix, lemma_pair_injective, lemma_pair_prefix_free, pair_encoding,
    ScaleDecode, ScaleEncode,
};

verus! {

/// `FindAllAccounts` Iroha Query will find all `Account`s presented.
#[derive(Debug, Default, Clone, Copy, PartialEq, Eq, PartialOrd, Ord, Hash)]
pub struct FindAllAccounts {}

impl FindAllAccounts {
    /// Default `FindAllAccounts` constructor.
    pub fn new() -> (r: FindAllAccounts)
        ensures
            r == (FindAllAccounts {}),
    {
        FindAllAccounts {}
    }
}

impl ScaleEncode for FindAllAccounts {
    open spec fn encodable(&self) -> bool {
        true
    }

    open spec fn spec_encoding(&self) -> Seq<u8> {
        Seq::empty()
    }

    fn encode_to(&self, out: &mut Vec<u8>) {
        assert(old(out)@ + self.spec_encoding() =~= old(out)@);
    }
}

/// `FindAccountById` Iroha Query will find an `Account` by it's identification.
#[derive(Debug, Clone, PartialEq, Eq, PartialOrd, Ord, Hash)]
pub struct FindAccountById {
    /// `Id` of an account to find.
    pub id: EvaluatesTo<AccountId>,
}

impl FindAccountById {
    /// Default `FindAccountById` constructor.
    pub fn new(id: EvaluatesTo<AccountId>) -> (r: FindAccountById)
        ensures
            r == (FindAccountById { id }),
    {
        FindAccountById { id }
    }
}

impl ScaleEncode for FindAccountById {
    open spec fn encodable(&self) -> bool {
        self.id.encodable()
    }

    open spec fn spec_encoding(&self) -> Seq<u8> {
        self.id.spec_encoding()
    }

    fn encode_to(&self, out: &mut Vec<u8>) {
        self.id.encode_to(out);
    }
}

/// `FindAccountKeyValueByIdAndKey` Iroha Query will find a value of the key-value metadata pair
/// in the specified account.
#[derive(Debug, Clone, PartialEq, Eq, PartialOrd, Ord, Hash)]
pub struct FindAccountKeyValueByIdAndKey {
    /// `Id` of an account to find.
    pub id: EvaluatesTo<AccountId>,
    /// Key of the specific key-value in the Account's metadata.
    pub key: EvaluatesTo<String>,
}

impl FindAccountKeyValueByIdAndKey {
    /// Default `FindAccountKeyValueByIdAndKey` constructor.
    pub fn new(
        id: EvaluatesTo<AccountId>,
        key: EvaluatesTo<String>,
    ) -> (r: FindAccountKeyValueByIdAndKey)
        ensures
            r == (FindAccountKeyValueByIdAndKey { id, key }),
    {
        FindAccountKeyValueByIdAndKey { id, key }
    }
}

impl ScaleEncode for FindAccountKeyValueByIdAndKey {
    open spec fn encodable(&self) -> bool {
        self.id.encodable() && self.key.encodable()
    }

    open spec fn spec_encoding(&self) -> Seq<u8> {
        self.id.spec_encoding() + self.key.spec_encoding()
    }

    fn encode_to(&self, out: &mut Vec<u8>) {
        self.id.encode_to(out);
        self.key.encode_to(out);
        assert(old(out)@ + self.spec_encoding() =~= old(out)@ + self.id.spec_encoding()

            + self.key.spec_encoding());
    }
}

/// `FindAccountsByName` Iroha Query will get `Account`s name as input and
/// find all `Account`s with this name.
#[derive(Debug, Clone, PartialEq, Eq, PartialOrd, Ord, Hash)]
pub struct FindAccountsByName {
    /// `name` of accounts to find.
    pub name: EvaluatesTo<Name>,
}

impl FindAccountsByName {
    /// Default `FindAccountsByName` constructor.
    pub fn new(name: EvaluatesTo<Name>) -> (r: FindAccountsByName)
        ensures
            r == (FindAccountsByName { name }),
    {
        FindAccountsByName { name }
    }
}

impl ScaleEncode for FindAccountsByName {
    open spec fn encodable(&self) -> bool {
        self.name.encodable()
    }

    open spec fn spec_encoding(&self) -> Seq<u8> {
        self.name.spec_encoding()
    }

    fn encode_to(&self, out: &mut Vec<u8>) {
        self.name.encode_to(out);
    }
}

/// `FindAccountsByDomainName` Iroha Query will get `Domain`s name as input and
/// find all `Account`s under this `Domain`.
#[derive(Debug, Clone, PartialEq, Eq, PartialOrd, Ord, Hash)]
pub struct FindAccountsByDomainName {
    /// `domain_name` under which accounts should be found.
    pub domain_name: EvaluatesTo<Name>,
}

impl FindAccountsByDomainName {
    /// Default `FindAccountsByDomainName` constructor.
    pub fn new(domain_name: EvaluatesTo<Name>) -> (r: FindAccountsByDomainName)
        ensures
            r == (FindAccountsByDomainName { domain_name }),
    {
        FindAccountsByDomainName { domain_name }
    }
}

impl ScaleEncode for FindAccountsByDomainName {
    open spec fn encodable(&self) -> bool {
        self.domain_name.encodable()
    }

    open spec fn spec_encoding(&self) -> Seq<u8> {
        self.domain_name.spec_encoding()
    }

    fn encode_to(&self, out: &mut Vec<u8>) {
        self.domain_name.encode_to(out);
    }
}

impl DeepView for FindAllAccounts {
    type V = ();

    open spec fn deep_view(&self) -> () {
        ()
    }
}

impl ScaleDecode for FindAllAccounts {
    proof fn lemma_encoding_determined(a: Self, b: Self) {
    }

    proof fn lemma_encoding_injective(a: Self, b: Self) {
    }

    proof fn lemma_prefix_free(a: Self, b: Self) {
    }

    fn decode_from(input: &[u8]) -> (r: Option<(Self, usize)>) {
        assert(input@.take(0) =~= Seq::<u8>::empty());
        Some((FindAllAccounts {}, 0))
    }
}

impl DeepView for FindAccountById {
    type V = (Seq<char>, Seq<char>);

    open spec fn deep_view(&self) -> (Seq<char>, Seq<char>) {
        self.id.deep_view()
    }
}

impl ScaleDecode for FindAccountById {
    proof fn lemma_encoding_determined(a: Self, b: Self) {
        <EvaluatesTo<AccountId> as ScaleDecode>::lemma_encoding_determined(a.id, b.id);
    }

    proof fn lemma_encoding_injective(a: Self, b: Self) {
        <EvaluatesTo<AccountId> as ScaleDecode>::lemma_encoding_injective(a.id, b.id);
    }

    proof fn lemma_prefix_free(a: Self, b: Self) {
        <EvaluatesTo<AccountId> as ScaleDecode>::lemma_prefix_free(a.id, b.id);
    }

    fn decode_from(input: &[u8]) -> (r: Option<(Self, usize)>) {
        match <EvaluatesTo<AccountId> as ScaleDecode>::decode_from(input) {
            Some((id, n)) => Some((FindAccountById { id }, n)),
            None => {
                assert forall|v: FindAccountById|
                    v.encodable() implies !is_prefix(#[trigger] v.spec_encoding(), input@) by {
                    assert(v.id.encodable());
                }
                None
            },
        }
    }
}

impl DeepView for FindAccountKeyValueByIdAndKey {
    type V = ((Seq<char>, Seq<char>), Seq<char>);

    open spec fn deep_view(&self) -> ((Seq<char>, Seq<char>), Seq<char>) {
        (self.id.deep_view(), self.key.deep_view())
    }
}

impl ScaleDecode for FindAccountKeyValueByIdAndKey {
    proof fn lemma_encoding_determined(a: Self, b: Self) {
        <EvaluatesTo<AccountId> as ScaleDecode>::lemma_encoding_determined(a.id, b.id);
        <EvaluatesTo<String> as ScaleDecode>::lemma_encoding_determined(a.key, b.key);
    }

    proof fn lemma_encoding_injective(a: Self, b: Self) {
        lemma_pair_injective(a.id, a.key, b.id, b.key);
    }

    proof fn lemma_prefix_free(a: Self, b: Self) {
        lemma_pair_prefix_free(a.id, a.key, b.id, b.key);
    }

    fn decode_from(input: &[u8]) -> (r: Option<(Self, usize)>) {
        match decode_pair::<EvaluatesTo<AccountId>, EvaluatesTo<String>>(input) {
            Some((id, key, n)) => Some((FindAccountKeyValueByIdAndKey { id, key }, n)),
            None => {
                assert forall|v: FindAccountKeyValueByIdAndKey|
                    v.encodable() implies !is_prefix(#[trigger] v.spec_encoding(), input@) by {
                    assert(v.spec_encoding() == pair_encoding(v.id, v.key));
                }
                None
            },
        }
    }
}

impl DeepView for FindAccountsByName {
    type V = Seq<char>;

    open spec fn deep_view(&self) -> Seq<char> {
        self.name.deep_view()
    }
}

impl ScaleDecode for FindAccountsByName {
    proof fn lemma_encoding_determined(a: Self, b: Self) {
        <EvaluatesTo<Name> as ScaleDecode>::lemma_encoding_determined(a.name, b.name);
    }

    proof fn lemma_encoding_injective(a: Self, b: Self) {
        <EvaluatesTo<Name> as ScaleDecode>::lemma_encoding_injective(a.name, b.name);
    }

    proof fn lemma_prefix_free(a: Self, b: Self) {
        <EvaluatesTo<Name> as ScaleDecode>::lemma_prefix_free(a.name, b.name);
    }

    fn decode_from(input: &[u8]) -> (r: Option<(Self, usize)>) {
        match <EvaluatesTo<Name> as ScaleDecode>::decode_from(input) {
            Some((name, n)) => Some((FindAccountsByName { name }, n)),
            None => {
                assert forall|v: FindAccountsByName|
                    v.encodable() implies !is_prefix(#[trigger] v.spec_encoding(), input@) by {
                    assert(v.name.encodable());
                }
                None
            },
        }
    }
}

impl DeepView for FindAccountsByDomainName {
    type V = Seq<char>;

    open spec fn deep_view(&self) -> Seq<char> {
        self.domain_name.deep_view()
    }
}

impl ScaleDecode for FindAccountsByDomainName {
    proof fn lemma_encoding_determined(a: Self, b: Self) {
        <EvaluatesTo<Name> as ScaleDecode>::lemma_encoding_determined(a.domain_name, b.domain_name);
    }

    proof fn lemma_encoding_injective(a: Self, b: Self) {
        <EvaluatesTo<Name> as ScaleDecode>::lemma_encoding_injective(a.domain_name, b.domain_name);
    }

    proof fn lemma_prefix_free(a: Self, b: Self) {
        <EvaluatesTo<Name> as ScaleDecode>::lemma_prefix_free(a.domain_name, b.domain_name);
    }

    fn decode_from(input: &[u8]) -> (r: Option<(Self, usize)>) {
        match <EvaluatesTo<Name> as ScaleDecode>::decode_from(input) {
            Some((domain_name, n)) => Some((FindAccountsByDomainName { domain_name }, n)),
            None => {
                assert forall|v: FindAccountsByDomainName|
                    v.encodable() implies !is_prefix(#[trigger] v.spec_encoding(), input@) by {
                    assert(v.domain_name.encodable());
                }
                None
            },
        }
    }
}

impl Introspect for FindAllAccounts {
    open spec fn spec_introspect() -> MetaSpec {
        MetaSpec::Struct("FindAllAccounts"@, Seq::empty())
    }

    fn introspect() -> (m: Metadata) {
        let mut declarations: Vec<Declaration> = Vec::new();
        proof {
            lemma_decls_spec_empty();
        }
        struct_metadata("FindAllAccounts", declarations)
    }
}

impl Introspect for FindAccountById {
    open spec fn spec_introspect() -> MetaSpec {
        let id = <EvaluatesTo<AccountId> as Introspect>::spec_introspect();
        MetaSpec::Struct("FindAccountById"@, Seq::empty().push(named_decl_spec("id"@, id)))
    }

    fn introspect() -> (m: Metadata) {
        let mut declarations: Vec<Declaration> = Vec::new();
        proof {
            lemma_decls_spec_empty();
        }
        let d = <EvaluatesTo<AccountId> as Introspect>::introspect();
        push_declaration(&mut declarations, named_declaration("id", d));
        struct_metadata("FindAccountById", declarations)
    }
}

impl Introspect for FindAccountKeyValueByIdAndKey {
    open spec fn spec_introspect() -> MetaSpec {
        let id = <EvaluatesTo<AccountId> as Introspect>::spec_introspect();
        let key = <EvaluatesTo<String> as Introspect>::spec_introspect();
        MetaSpec::Struct(
            "FindAccountKeyValueByIdAndKey"@,
            Seq::empty()
                .push(named_decl_spec("id"@, id))
                .push(named_decl_spec("key"@, key)),
        )
    }

    fn introspect() -> (m: Metadata) {
        let mut declarations: Vec<Declaration> = Vec::new();
        proof {
            lemma_decls_spec_empty();
        }
        let d = <EvaluatesTo<AccountId> as Introspect>::introspect();
        push_declaration(&mut declarations, named_declaration("id", d));
        let d = <EvaluatesTo<String> as Introspect>::introspect();
        push_declaration(&mut declarations, named_declaration("key", d));
        struct_metadata("FindAccountKeyValueByIdAndKey", declarations)
    }
}

impl Introspect for FindAccountsByName {
    open spec fn spec_introspect() -> MetaSpec {
        let name = <EvaluatesTo<Name> as Introspect>::spec_introspect();
        MetaSpec::Struct("FindAccountsByName"@, Seq::empty().push(named_decl_spec("name"@, name)))
    }

    fn introspect() -> (m: Metadata) {
        let mut declarations: Vec<Declaration> = Vec::new();
        proof {
            lemma_decls_spec_empty();
        }
        let d = <EvaluatesTo<Name> as Introspect>::introspect();
        push_declaration(&mut declarations, named_declaration("name", d));
        struct_metadata("FindAccountsByName", declarations)
    }
}

impl Introspect for FindAccountsByDomainName {
    open spec fn spec_introspect() -> MetaSpec {
        let domain_name = <EvaluatesTo<Name> as Introspect>::spec_introspect();
        MetaSpec::Struct(
            "FindAccountsByDomainName"@,
            Seq::empty()
                .push(named_decl_spec("domain_name"@, domain_name)),
        )
    }

    fn introspect() -> (m: Metadata) {
        let mut declarations: Vec<Declaration> = Vec::new();
        proof {
            lemma_decls_spec_empty();
        }
        let d = <EvaluatesTo<Name> as Introspect>::introspect();
        push_declaration(&mut declarations, named_declaration("domain_name", d));
        struct_metadata("FindAccountsByDomainName", declarations)
    }
}

/// Each of these types is encoded as its fields, one after the other, in the order in
/// which they are declared (a type without fields as no bytes at all).
pub proof fn law_account_encodings_follow_field_order()
    ensures
        forall|x: FindAllAccounts| #[trigger] x.spec_encoding() == Seq::<u8>::empty(),
        forall|v0: EvaluatesTo<AccountId>|
            #[trigger] (FindAccountById { id: v0 }).spec_encoding() == v0.spec_encoding(),
        forall|v0: EvaluatesTo<AccountId>, v1: EvaluatesTo<String>|
            #[trigger] (FindAccountKeyValueByIdAndKey { id: v0, key: v1 }).spec_encoding()
                == v0.spec_encoding() + v1.spec_encoding(),
        forall|v0: EvaluatesTo<Name>|
            #[trigger] (FindAccountsByName { name: v0 }).spec_encoding() == v0.spec_encoding(),
        forall|v0: EvaluatesTo<Name>|
            #[trigger] (FindAccountsByDomainName { domain_name: v0 }).spec_encoding()
                == v0.spec_encoding(),
{
}

/// Each of these types is described as a struct under its own name that declares its
/// fields, under their names, in the order in which they are declared (the order of the
/// encoding), each described as its own type.
pub proof fn law_account_descriptions_follow_field_order()
    ensures
        FindAllAccounts::spec_introspect() == MetaSpec::Struct("FindAllAccounts"@, seq![]),
        FindAccountById::spec_introspect() == MetaSpec::Struct(
            "FindAccountById"@,
            seq![
                DeclSpec {
                    name: Some("id"@),
                    definition: <EvaluatesTo<AccountId> as Introspect>::spec_introspect(),
                },
            ],
        ),
        FindAccountKeyValueByIdAndKey::spec_introspect() == MetaSpec::Struct(
            "FindAccountKeyValueByIdAndKey"@,
            seq![
                DeclSpec {
                    name: Some("id"@),
                    definition: <EvaluatesTo<AccountId> as Introspect>::spec_introspect(),
                },
                DeclSpec {
                    name: Some("key"@),
                    definition: <EvaluatesTo<String> as Introspect>::spec_introspect(),
                },
            ],
        ),
        FindAccountsByName::spec_introspect() == MetaSpec::Struct(
            "FindAccountsByName"@,
            seq![
                DeclSpec {
                    name: Some("name"@),
                    definition: <EvaluatesTo<Name> as Introspect>::spec_introspect(),
                },
            ],
        ),
        FindAccountsByDomainName::spec_introspect() == MetaSpec::Struct(
            "FindAccountsByDomainName"@,
            seq![
                DeclSpec {
                    name: Some("domain_name"@),
                    definition: <EvaluatesTo<Name> as Introspect>::spec_introspect(),
                },
            ],
        ),
{
    lemma_two_declarations(
        named_decl_spec("id"@, <EvaluatesTo<AccountId> as Introspect>::spec_introspect()),
        named_decl_spec("key"@, <EvaluatesTo<String> as Introspect>::spec_introspect()),
    );
}

} // verus!
