//! Identifiers of ledger entities and the expressions that queries carry.
use vstd::prelude::*;

use crate::introspect::{
    lemma_two_declarations,
    lemma_decls_spec_empty, named_decl_spec, named_declaration, push_declaration, struct_metadata,
    Introspect,
};
use crate::metadata::{DeclSpec, Declaration, MetaSpec, Metadata};
use crate::scale::{
    decode_pair, is_prefix, lemma_pair_injective, lemma_pair_prefix_free, lemma_pair_split,
    lemma_str_encoding_injective, pair_encoding, ScaleDecode, ScaleEncode,
};

verus! {

/// The name of an entity.
pub type Name = String;

/// Identification of an account: its name within a domain.
#[derive(Debug, Clone, PartialEq, Eq, PartialOrd, Ord, Hash)]
pub struct AccountId {
    /// The account's name.
    pub name: Name,
    /// The name of the domain that holds the account.
    pub domain_name: Name,
}

/// Identification of an asset definition: its name within a domain.
#[derive(Debug, Clone, PartialEq, Eq, PartialOrd, Ord, Hash)]
pub struct AssetDefinitionId {
    /// The asset definition's name.
    pub name: Name,
    /// The name of the domain that holds the definition.
    pub domain_name: Name,
}

/// Identification of an asset: the definition it follows and the account that owns it.
#[derive(Debug, Clone, PartialEq, Eq, PartialOrd, Ord, Hash)]
pub struct AssetId {
    pub definition_id: AssetDefinitionId,
    pub account_id: AccountId,
}

impl AccountId {
    /// Builds the identification of the account `name` in the domain `domain_name`.
    pub fn new(name: &str, domain_name: &str) -> (r: AccountId)
        ensures
            r.name@ == name@,
            r.domain_name@ == domain_name@,
    {
        AccountId { name: name.to_owned(), domain_name: domain_name.to_owned() }
    }
}

impl AssetDefinitionId {
    /// Builds the identification of the asset definition `name` in the domain `domain_name`.
    pub fn new(name: &str, domain_name: &str) -> (r: AssetDefinitionId)
        ensures
            r.name@ == name@,
            r.domain_name@ == domain_name@,
    {
        AssetDefinitionId { name: name.to_owned(), domain_name: domain_name.to_owned() }
    }
}

impl AssetId {
    /// Builds the identification of the asset of `definition_id` owned by `account_id`.
    pub fn new(definition_id: AssetDefinitionId, account_id: AccountId) -> (r: AssetId)
        ensures
            r == (AssetId { definition_id, account_id }),
    {
        AssetId { definition_id, account_id }
    }
}

/// An expression that evaluates to a `V`, given here by the value itself.
#[derive(Debug, Clone, PartialEq, Eq, PartialOrd, Ord, Hash)]
pub struct EvaluatesTo<V> {
    pub expression: V,
}

impl<V> EvaluatesTo<V> {
    /// The expression that evaluates to `value`.
    pub fn new(value: V) -> (r: EvaluatesTo<V>)
        ensures
            r == (EvaluatesTo { expression: value }),
    {
        EvaluatesTo { expression: value }
    }
}

impl<V> From<V> for EvaluatesTo<V> {
    fn from(value: V) -> (r: EvaluatesTo<V>) {
        EvaluatesTo { expression: value }
    }
}

impl<V> vstd::std_specs::convert::FromSpecImpl<V> for EvaluatesTo<V> {
    open spec fn obeys_from_spec() -> bool {
        true
    }

    open spec fn from_spec(v: V) -> EvaluatesTo<V> {
        EvaluatesTo { expression: v }
    }
}

impl ScaleEncode for AccountId {
    open spec fn encodable(&self) -> bool {
        self.name.encodable() && self.domain_name.encodable()
    }

    open spec fn spec_encoding(&self) -> Seq<u8> {
        self.name.spec_encoding() + self.domain_name.spec_encoding()
    }

    fn encode_to(&self, out: &mut Vec<u8>) {
        self.name.encode_to(out);
        self.domain_name.encode_to(out);
        assert(old(out)@ + self.spec_encoding() =~= old(out)@ + self.name.spec_encoding()
           

            + self.domain_name.spec_encoding());
    }
}

impl ScaleEncode for AssetDefinitionId {
    open spec fn encodable(&self) -> bool {
        self.name.encodable() && self.domain_name.encodable()
    }

    open spec fn spec_encoding(&self) -> Seq<u8> {
        self.name.spec_encoding() + self.domain_name.spec_encoding()
    }

    fn encode_to(&self, out: &mut Vec<u8>) {
        self.name.encode_to(out);
        self.domain_name.encode_to(out);
        assert(old(out)@ + self.spec_encoding() =~= old(out)@ + self.name.spec_encoding()
           

            + self.domain_name.spec_encoding());
    }
}

impl ScaleEncode for AssetId {
    open spec fn encodable(&self) -> bool {
        self.definition_id.encodable() && self.account_id.encodable()
    }

    open spec fn spec_encoding(&self) -> Seq<u8> {
        self.definition_id.spec_encoding() + self.account_id.spec_encoding()
    }

    fn encode_to(&self, out: &mut Vec<u8>) {
        self.definition_id.encode_to(out);
        self.account_id.encode_to(out);
        assert(old(out)@ + self.spec_encoding() =~= old(out)@ + self.definition_id.spec_encoding()
           

            + self.account_id.spec_encoding());
    }
}

impl<V: ScaleEncode> ScaleEncode for EvaluatesTo<V> {
    open spec fn encodable(&self) -> bool {
        self.expression.encodable()
    }

    open spec fn spec_encoding(&self) -> Seq<u8> {
        self.expression.spec_encoding()
    }

    fn encode_to(&self, out: &mut Vec<u8>) {
        self.expression.encode_to(out);
    }
}

impl DeepView for AccountId {
    type V = (Seq<char>, Seq<char>);

    open spec fn deep_view(&self) -> (Seq<char>, Seq<char>) {
        (self.name@, self.domain_name@)
    }
}

impl ScaleDecode for AccountId {
    proof fn lemma_encoding_determined(a: Self, b: Self) {
        String::lemma_encoding_determined(a.name, b.name);
        String::lemma_encoding_determined(a.domain_name, b.domain_name);
    }

    proof fn lemma_encoding_injective(a: Self, b: Self) {
        lemma_pair_injective(a.name, a.domain_name, b.name, b.domain_name);
    }

    proof fn lemma_prefix_free(a: Self, b: Self) {
        lemma_pair_prefix_free(a.name, a.domain_name, b.name, b.domain_name);
    }

    fn decode_from(input: &[u8]) -> (r: Option<(Self, usize)>) {
        match decode_pair::<String, String>(input) {
            Some((name, domain_name, n)) => Some((AccountId { name, domain_name }, n)),
            None => {
                assert forall|v: AccountId|
                    v.encodable() implies !is_prefix(#[trigger] v.spec_encoding(), input@) by {
                    assert(v.spec_encoding() == pair_encoding(v.name, v.domain_name));
                }
                None
            },
        }
    }
}

impl DeepView for AssetDefinitionId {
    type V = (Seq<char>, Seq<char>);

    open spec fn deep_view(&self) -> (Seq<char>, Seq<char>) {
        (self.name@, self.domain_name@)
    }
}

impl ScaleDecode for AssetDefinitionId {
    proof fn lemma_encoding_determined(a: Self, b: Self) {
        String::lemma_encoding_determined(a.name, b.name);
        String::lemma_encoding_determined(a.domain_name, b.domain_name);
    }

    proof fn lemma_encoding_injective(a: Self, b: Self) {
        lemma_pair_injective(a.name, a.domain_name, b.name, b.domain_name);
    }

    proof fn lemma_prefix_free(a: Self, b: Self) {
        lemma_pair_prefix_free(a.name, a.domain_name, b.name, b.domain_name);
    }

    fn decode_from(input: &[u8]) -> (r: Option<(Self, usize)>) {
        match decode_pair::<String, String>(input) {
            Some((name, domain_name, n)) => Some((AssetDefinitionId { name, domain_name }, n)),
            None => {
                assert forall|v: AssetDefinitionId|
                    v.encodable() implies !is_prefix(#[trigger] v.spec_encoding(), input@) by {
                    assert(v.spec_encoding() == pair_encoding(v.name, v.domain_name));
                }
                None
            },
        }
    }
}

impl DeepView for AssetId {
    type V = ((Seq<char>, Seq<char>), (Seq<char>, Seq<char>));

    open spec fn deep_view(&self) -> ((Seq<char>, Seq<char>), (Seq<char>, Seq<char>)) {
        (self.definition_id.deep_view(), self.account_id.deep_view())
    }
}

impl ScaleDecode for AssetId {
    proof fn lemma_encoding_determined(a: Self, b: Self) {
        AssetDefinitionId::lemma_encoding_determined(a.definition_id, b.definition_id);
        AccountId::lemma_encoding_determined(a.account_id, b.account_id);
    }

    proof fn lemma_encoding_injective(a: Self, b: Self) {
        lemma_pair_injective(a.definition_id, a.account_id, b.definition_id, b.account_id);
    }

    proof fn lemma_prefix_free(a: Self, b: Self) {
        lemma_pair_prefix_free(a.definition_id, a.account_id, b.definition_id, b.account_id);
    }

    fn decode_from(input: &[u8]) -> (r: Option<(Self, usize)>) {
        match decode_pair::<AssetDefinitionId, AccountId>(input) {
            Some((definition_id, account_id, n)) => {
                Some((AssetId { definition_id, account_id }, n))
            },
            None => {
                assert forall|v: AssetId|
                    v.encodable() implies !is_prefix(#[trigger] v.spec_encoding(), input@) by {
                    assert(v.spec_encoding() == pair_encoding(v.definition_id, v.account_id));
                }
                None
            },
        }
    }
}

impl<V: DeepView> DeepView for EvaluatesTo<V> {
    type V = V::V;

    open spec fn deep_view(&self) -> V::V {
        self.expression.deep_view()
    }
}

impl<V: ScaleDecode> ScaleDecode for EvaluatesTo<V> {
    proof fn lemma_encoding_determined(a: Self, b: Self) {
        V::lemma_encoding_determined(a.expression, b.expression);
    }

    proof fn lemma_encoding_injective(a: Self, b: Self) {
        V::lemma_encoding_injective(a.expression, b.expression);
    }

    proof fn lemma_prefix_free(a: Self, b: Self) {
        V::lemma_prefix_free(a.expression, b.expression);
    }

    fn decode_from(input: &[u8]) -> (r: Option<(Self, usize)>) {
        match V::decode_from(input) {
            Some((expression, n)) => Some((EvaluatesTo { expression }, n)),
            None => {
                assert forall|v: EvaluatesTo<V>| v.encodable() implies !is_prefix(
                    #[trigger] v.spec_encoding(),
                    input@,
                ) by {
                    assert(v.expression.encodable());
                }
                None
            },
        }
    }
}


/// Account identifications with the same encoding have the same name and domain name.
pub proof fn law_account_id_encoding_injective(a: AccountId, b: AccountId)
    requires
        a.encodable(),
        b.encodable(),
        a.spec_encoding() == b.spec_encoding(),
    ensures
        a.name@ == b.name@,
        a.domain_name@ == b.domain_name@,
{
    lemma_pair_split(a.name, a.domain_name, b.name, b.domain_name);
    lemma_str_encoding_injective(a.name@, b.name@);
    lemma_str_encoding_injective(a.domain_name@, b.domain_name@);
}

/// Asset definition identifications with the same encoding have the same name and domain name.
pub proof fn law_asset_definition_id_encoding_injective(a: AssetDefinitionId, b: AssetDefinitionId)
    requires
        a.encodable(),
        b.encodable(),
        a.spec_encoding() == b.spec_encoding(),
    ensures
        a.name@ == b.name@,
        a.domain_name@ == b.domain_name@,
{
    lemma_pair_split(a.name, a.domain_name, b.name, b.domain_name);
    lemma_str_encoding_injective(a.name@, b.name@);
    lemma_str_encoding_injective(a.domain_name@, b.domain_name@);
}

/// Asset identifications with the same encoding name the same definition and the same account.
pub proof fn law_asset_id_encoding_injective(a: AssetId, b: AssetId)
    requires
        a.encodable(),
        b.encodable(),
        a.spec_encoding() == b.spec_encoding(),
    ensures
        a.definition_id.name@ == b.definition_id.name@,
        a.definition_id.domain_name@ == b.definition_id.domain_name@,
        a.account_id.name@ == b.account_id.name@,
        a.account_id.domain_name@ == b.account_id.domain_name@,
{
    lemma_pair_split(a.definition_id, a.account_id, b.definition_id, b.account_id);
    law_asset_definition_id_encoding_injective(a.definition_id, b.definition_id);
    law_account_id_encoding_injective(a.account_id, b.account_id);
}

impl Introspect for AccountId {
    open spec fn spec_introspect() -> MetaSpec {
        let name = <Name as Introspect>::spec_introspect();
        let domain_name = <Name as Introspect>::spec_introspect();
        MetaSpec::Struct(
            "AccountId"@,
            Seq::empty()
                .push(named_decl_spec("name"@, name))
                .push(named_decl_spec("domain_name"@, domain_name)),
        )
    }

    fn introspect() -> (m: Metadata) {
        let mut declarations: Vec<Declaration> = Vec::new();
        proof {
            lemma_decls_spec_empty();
        }
        let d = <Name as Introspect>::introspect();
        push_declaration(&mut declarations, named_declaration("name", d));
        let d = <Name as Introspect>::introspect();
        push_declaration(&mut declarations, named_declaration("domain_name", d));
        struct_metadata("AccountId", declarations)
    }
}

impl Introspect for AssetDefinitionId {
    open spec fn spec_introspect() -> MetaSpec {
        let name = <Name as Introspect>::spec_introspect();
        let domain_name = <Name as Introspect>::spec_introspect();
        MetaSpec::Struct(
            "AssetDefinitionId"@,
            Seq::empty()
                .push(named_decl_spec("name"@, name))
                .push(named_decl_spec("domain_name"@, domain_name)),
        )
    }

    fn introspect() -> (m: Metadata) {
        let mut declarations: Vec<Declaration> = Vec::new();
        proof {
            lemma_decls_spec_empty();
        }
        let d = <Name as Introspect>::introspect();
        push_declaration(&mut declarations, named_declaration("name", d));
        let d = <Name as Introspect>::introspect();
        push_declaration(&mut declarations, named_declaration("domain_name", d));
        struct_metadata("AssetDefinitionId", declarations)
    }
}

impl Introspect for AssetId {
    open spec fn spec_introspect() -> MetaSpec {
        let definition_id = <AssetDefinitionId as Introspect>::spec_introspect();
        let account_id = <AccountId as Introspect>::spec_introspect();
        MetaSpec::Struct(
            "AssetId"@,
            Seq::empty()
                .push(named_decl_spec("definition_id"@, definition_id))
                .push(named_decl_spec("account_id"@, account_id)),
        )
    }

    fn introspect() -> (m: Metadata) {
        let mut declarations: Vec<Declaration> = Vec::new();
        proof {
            lemma_decls_spec_empty();
        }
        let d = <AssetDefinitionId as Introspect>::introspect();
        push_declaration(&mut declarations, named_declaration("definition_id", d));
        let d = <AccountId as Introspect>::introspect();
        push_declaration(&mut declarations, named_declaration("account_id", d));
        struct_metadata("AssetId", declarations)
    }
}

impl<V: Introspect> Introspect for EvaluatesTo<V> {
    open spec fn spec_introspect() -> MetaSpec {
        let expression = <V as Introspect>::spec_introspect();
        MetaSpec::Struct(
            "EvaluatesTo"@,
            Seq::empty()
                .push(named_decl_spec("expression"@, expression)),
        )
    }

    fn introspect() -> (m: Metadata) {
        let mut declarations: Vec<Declaration> = Vec::new();
        proof {
            lemma_decls_spec_empty();
        }
        let d = <V as Introspect>::introspect();
        push_declaration(&mut declarations, named_declaration("expression", d));
        struct_metadata("EvaluatesTo", declarations)
    }
}

/// Each of these types is encoded as its fields, one after the other, in the order in
/// which they are declared (a type without fields as no bytes at all).
pub proof fn law_identifier_encodings_follow_field_order()
    ensures
        forall|v0: Name, v1: Name|
            #[trigger] (AccountId { name: v0, domain_name: v1 }).spec_encoding()
                == v0.spec_encoding() + v1.spec_encoding(),
        forall|v0: Name, v1: Name|
            #[trigger] (AssetDefinitionId { name: v0, domain_name: v1 }).spec_encoding()
                == v0.spec_encoding() + v1.spec_encoding(),
        forall|v0: AssetDefinitionId, v1: AccountId|
            #[trigger] (AssetId { definition_id: v0, account_id: v1 }).spec_encoding()
                == v0.spec_encoding() + v1.spec_encoding(),
{
}

/// Each of these types is described as a struct under its own name that declares its
/// fields, under their names, in the order in which they are declared (the order of the
/// encoding), each described as its own type.
pub proof fn law_identifier_descriptions_follow_field_order()
    ensures
        AccountId::spec_introspect() == MetaSpec::Struct(
            "AccountId"@,
            seq![
                DeclSpec {
                    name: Some("name"@),
                    definition: <Name as Introspect>::spec_introspect(),
                },
                DeclSpec {
                    name: Some("domain_name"@),
                    definition: <Name as Introspect>::spec_introspect(),
                },
            ],
        ),
        AssetDefinitionId::spec_introspect() == MetaSpec::Struct(
            "AssetDefinitionId"@,
            seq![
                DeclSpec {
                    name: Some("name"@),
                    definition: <Name as Introspect>::spec_introspect(),
                },
                DeclSpec {
                    name: Some("domain_name"@),
                    definition: <Name as Introspect>::spec_introspect(),
                },
            ],
        ),
        AssetId::spec_introspect() == MetaSpec::Struct(
            "AssetId"@,
            seq![
                DeclSpec {
                    name: Some("definition_id"@),
                    definition: <AssetDefinitionId as Introspect>::spec_introspect(),
                },
                DeclSpec {
                    name: Some("account_id"@),
                    definition: <AccountId as Introspect>::spec_introspect(),
                },
            ],
        ),
{
    let name = <Name as Introspect>::spec_introspect();
    lemma_two_declarations(
        named_decl_spec("name"@, name),
        named_decl_spec("domain_name"@, name),
    );
    lemma_two_declarations(
        named_decl_spec("definition_id"@, <AssetDefinitionId as Introspect>::spec_introspect()),
        named_decl_spec("account_id"@, <AccountId as Introspect>::spec_introspect()),
    );
}

/// An expression is described as a struct named `EvaluatesTo` that declares one field,
/// `expression`, described as the value's type.
pub proof fn law_expression_description<V: Introspect>()
    ensures
        <EvaluatesTo<V> as Introspect>::spec_introspect() == MetaSpec::Struct(
            "EvaluatesTo"@,
            seq![DeclSpec { name: Some("expression"@), definition: V::spec_introspect() }],
        ),
{
}

} // verus!
