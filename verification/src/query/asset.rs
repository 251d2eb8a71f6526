//! Queries related to assets.
use vstd::prelude::*;

use crate::introspect::{
    lemma_two_declarations,
    lemma_decls_spec_empty, named_decl_spec, named_declaration, push_declaration, struct_metadata,
    Introspect,
};
use crate::metadata::{DeclSpec, Declaration, MetaSpec, Metadata};
use crate::model::{AccountId, AssetDefinitionId, AssetId, EvaluatesTo, Name};
use crate::scale::{
    decode_pair, is_prefix, lemma_pair_injective, lemma_pair_prefix_free, pair_encoding,
    ScaleDecode, ScaleEncode,
};

verus! {

/// `FindAllAssets` Iroha Query will find all `Asset`s presented in Iroha Peer.
#[derive(Debug, Default, Clone, Copy, PartialEq, Eq, PartialOrd, Ord, Hash)]
pub struct FindAllAssets {}

impl FindAllAssets {
    /// Default `FindAllAssets` constructor.
    pub fn new() -> (r: FindAllAssets)
        ensures
            r == (FindAllAssets {}),
    {
        FindAllAssets {}
    }
}

impl ScaleEncode for FindAllAssets {
    open spec fn encodable(&self) -> bool {
        true
    }

    open spec fn spec_encoding(&self) -> Seq<u8> {
        Seq::empty()
    }

    fn encode_to(&self, out: &mut Vec<u8>) {
        assert(old(out)@ + self.spec_encoding() =~= old(out)@);
    }
}

/// `FindAllAssetsDefinitions` Iroha Query will find all `AssetDefinition`s presented
/// in Iroha Peer.
#[derive(Debug, Default, Clone, Copy, PartialEq, Eq, PartialOrd, Ord, Hash)]
pub struct FindAllAssetsDefinitions {}

impl FindAllAssetsDefinitions {
    /// Default `FindAllAssetsDefinitions` constructor.
    pub fn new() -> (r: FindAllAssetsDefinitions)
        ensures
            r == (FindAllAssetsDefinitions {}),
    {
        FindAllAssetsDefinitions {}
    }
}

impl ScaleEncode for FindAllAssetsDefinitions {
    open spec fn encodable(&self) -> bool {
        true
    }

    open spec fn spec_encoding(&self) -> Seq<u8> {
        Seq::empty()
    }

    fn encode_to(&self, out: &mut Vec<u8>) {
        assert(old(out)@ + self.spec_encoding() =~= old(out)@);
    }
}

/// `FindAssetById` Iroha Query will find an `Asset` by it's identification in Iroha `Peer`.
#[derive(Debug, Clone, PartialEq, Eq, PartialOrd, Ord, Hash)]
pub struct FindAssetById {
    /// `Id` of an `Asset` to find.
    pub id: EvaluatesTo<AssetId>,
}

impl FindAssetById {
    /// Default `FindAssetById` constructor.
    pub fn new(id: EvaluatesTo<AssetId>) -> (r: FindAssetById)
        ensures
            r == (FindAssetById { id }),
    {
        FindAssetById { id }
    }
}

impl ScaleEncode for FindAssetById {
    open spec fn encodable(&self) -> bool {
        self.id.encodable()
    }

    open spec fn spec_encoding(&self) -> Seq<u8> {
        self.id.spec_encoding()
    }

    fn encode_to(&self, out: &mut Vec<u8>) {
        self.id.encode_to(out);
    }
}

/// `FindAssetsByName` Iroha Query will get `Asset`s name as input and
/// find all `Asset`s with it in Iroha `Peer`.
#[derive(Debug, Clone, PartialEq, Eq, PartialOrd, Ord, Hash)]
pub struct FindAssetsByName {
    /// `Name` of `Asset`s to find.
    pub name: EvaluatesTo<Name>,
}

impl FindAssetsByName {
    /// Default `FindAssetsByName` constructor.
    pub fn new(name: EvaluatesTo<Name>) -> (r: FindAssetsByName)
        ensures
            r == (FindAssetsByName { name }),
    {
        FindAssetsByName { name }
    }
}

impl ScaleEncode for FindAssetsByName {
    open spec fn encodable(&self) -> bool {
        self.name.encodable()
    }

    open spec fn spec_encoding(&self) -> Seq<u8> {
        self.name.spec_encoding()
    }

    fn encode_to(&self, out: &mut Vec<u8>) {
        self.name.encode_to(out);
    }
}

/// `FindAssetsByAccountId` Iroha Query will get `AccountId` as input and find all `Asset`s
/// owned by the `Account` in Iroha Peer.
#[derive(Debug, Clone, PartialEq, Eq, PartialOrd, Ord, Hash)]
pub struct FindAssetsByAccountId {
    /// `AccountId` under which assets should be found.
    pub account_id: EvaluatesTo<AccountId>,
}

impl FindAssetsByAccountId {
    /// Default `FindAssetsByAccountId` constructor.
    pub fn new(account_id: EvaluatesTo<AccountId>) -> (r: FindAssetsByAccountId)
        ensures
            r == (FindAssetsByAccountId { account_id }),
    {
        FindAssetsByAccountId { account_id }
    }
}

impl ScaleEncode for FindAssetsByAccountId {
    open spec fn encodable(&self) -> bool {
        self.account_id.encodable()
    }

    open spec fn spec_encoding(&self) -> Seq<u8> {
        self.account_id.spec_encoding()
    }

    fn encode_to(&self, out: &mut Vec<u8>) {
        self.account_id.encode_to(out);
    }
}

/// `FindAssetsByAssetDefinitionId` Iroha Query will get `AssetDefinitionId` as input and
/// find all `Asset`s with this `AssetDefinition` in Iroha Peer.
#[derive(Debug, Clone, PartialEq, Eq, PartialOrd, Ord, Hash)]
pub struct FindAssetsByAssetDefinitionId {
    /// `AssetDefinitionId` with type of `Asset`s should be found.
    pub asset_definition_id: EvaluatesTo<AssetDefinitionId>,
}

impl FindAssetsByAssetDefinitionId {
    /// Default `FindAssetsByAssetDefinitionId` constructor.
    pub fn new(
        asset_definition_id: EvaluatesTo<AssetDefinitionId>,
    ) -> (r: FindAssetsByAssetDefinitionId)
        ensures
            r == (FindAssetsByAssetDefinitionId { asset_definition_id }),
    {
        FindAssetsByAssetDefinitionId { asset_definition_id }
    }
}

impl ScaleEncode for FindAssetsByAssetDefinitionId {
    open spec fn encodable(&self) -> bool {
        self.asset_definition_id.encodable()
    }

    open spec fn spec_encoding(&self) -> Seq<u8> {
        self.asset_definition_id.spec_encoding()
    }

    fn encode_to(&self, out: &mut Vec<u8>) {
        self.asset_definition_id.encode_to(out);
    }
}

/// `FindAssetsByDomainName` Iroha Query will get `Domain`s name as input and
/// find all `Asset`s under this `Domain` in Iroha `Peer`.
#[derive(Debug, Clone, PartialEq, Eq, PartialOrd, Ord, Hash)]
pub struct FindAssetsByDomainName {
    /// `Name` of the domain under which assets should be found.
    pub domain_name: EvaluatesTo<Name>,
}

impl FindAssetsByDomainName {
    /// Default `FindAssetsByDomainName` constructor.
    pub fn new(domain_name: EvaluatesTo<Name>) -> (r: FindAssetsByDomainName)
        ensures
            r == (FindAssetsByDomainName { domain_name }),
    {
        FindAssetsByDomainName { domain_name }
    }
}

impl ScaleEncode for FindAssetsByDomainName {
    open spec fn encodable(&self) -> bool {
        self.domain_name.encodable()
    }

    open spec fn spec_encoding(&self) -> Seq<u8> {
        self.domain_name.spec_encoding()
    }

    fn encode_to(&self, out: &mut Vec<u8>) {
        self.domain_name.encode_to(out);
    }
}

/// `FindAssetsByAccountIdAndAssetDefinitionId` Iroha Query will get `AccountId` and
/// `AssetDefinitionId` as inputs and find all `Asset`s owned by the `Account`
/// with this `AssetDefinition` in Iroha Peer.
#[derive(Debug, Clone, PartialEq, Eq, PartialOrd, Ord, Hash)]
pub struct FindAssetsByAccountIdAndAssetDefinitionId {
    /// `AccountId` under which assets should be found.
    pub account_id: EvaluatesTo<AccountId>,
    /// `AssetDefinitionId` which assets should be found.
    pub asset_definition_id: EvaluatesTo<AssetDefinitionId>,
}

impl FindAssetsByAccountIdAndAssetDefinitionId {
    /// Default `FindAssetsByAccountIdAndAssetDefinitionId` constructor.
    pub fn new(
        account_id: EvaluatesTo<AccountId>,
        asset_definition_id: EvaluatesTo<AssetDefinitionId>,
    ) -> (r: FindAssetsByAccountIdAndAssetDefinitionId)
        ensures
            r == (FindAssetsByAccountIdAndAssetDefinitionId { account_id, asset_definition_id }),
    {
        FindAssetsByAccountIdAndAssetDefinitionId { account_id, asset_definition_id }
    }
}

impl ScaleEncode for FindAssetsByAccountIdAndAssetDefinitionId {
    open spec fn encodable(&self) -> bool {
        self.account_id.encodable() && self.asset_definition_id.encodable()
    }

    open spec fn spec_encoding(&self) -> Seq<u8> {
        self.account_id.spec_encoding() + self.asset_definition_id.spec_encoding()
    }

    fn encode_to(&self, out: &mut Vec<u8>) {
        self.account_id.encode_to(out);
        self.asset_definition_id.encode_to(out);
        assert(old(out)@ + self.spec_encoding() =~= old(out)@ + self.account_id.spec_encoding()

            + self.asset_definition_id.spec_encoding());
    }
}

/// `FindAssetsByDomainNameAndAssetDefinitionId` Iroha Query will get `Domain`'s name and
/// `AssetDefinitionId` as inputs and find all `Asset`s under the `Domain`
/// with this `AssetDefinition` in Iroha `Peer`.
#[derive(Debug, Clone, PartialEq, Eq, PartialOrd, Ord, Hash)]
pub struct FindAssetsByDomainNameAndAssetDefinitionId {
    /// `Name` of the domain under which assets should be found.
    pub domain_name: EvaluatesTo<Name>,
    /// `AssetDefinitionId` assets of which type should be found.
    pub asset_definition_id: EvaluatesTo<AssetDefinitionId>,
}

impl FindAssetsByDomainNameAndAssetDefinitionId {
    /// Default `FindAssetsByDomainNameAndAssetDefinitionId` constructor.
    pub fn new(
        domain_name: EvaluatesTo<Name>,
        asset_definition_id: EvaluatesTo<AssetDefinitionId>,
    ) -> (r: FindAssetsByDomainNameAndAssetDefinitionId)
        ensures
            r == (FindAssetsByDomainNameAndAssetDefinitionId { domain_name, asset_definition_id }),
    {
        FindAssetsByDomainNameAndAssetDefinitionId { domain_name, asset_definition_id }
    }
}

impl ScaleEncode for FindAssetsByDomainNameAndAssetDefinitionId {
    open spec fn encodable(&self) -> bool {
        self.domain_name.encodable() && self.asset_definition_id.encodable()
    }

    open spec fn spec_encoding(&self) -> Seq<u8> {
        self.domain_name.spec_encoding() + self.asset_definition_id.spec_encoding()
    }

    fn encode_to(&self, out: &mut Vec<u8>) {
        self.domain_name.encode_to(out);
        self.asset_definition_id.encode_to(out);
        assert(old(out)@ + self.spec_encoding() =~= old(out)@ + self.domain_name.spec_encoding()

            + self.asset_definition_id.spec_encoding());
    }
}

/// `FindAssetQuantityById` Iroha Query will get `AssetId` as input and find `Asset::quantity`
/// parameter's value if `Asset` is presented in Iroha Peer.
#[derive(Debug, Clone, PartialEq, Eq, PartialOrd, Ord, Hash)]
pub struct FindAssetQuantityById {
    /// `Id` of an `Asset` to find quantity of.
    pub id: EvaluatesTo<AssetId>,
}

impl FindAssetQuantityById {
    /// Default `FindAssetQuantityById` constructor.
    pub fn new(id: EvaluatesTo<AssetId>) -> (r: FindAssetQuantityById)
        ensures
            r == (FindAssetQuantityById { id }),
    {
        FindAssetQuantityById { id }
    }
}

impl ScaleEncode for FindAssetQuantityById {
    open spec fn encodable(&self) -> bool {
        self.id.encodable()
    }

    open spec fn spec_encoding(&self) -> Seq<u8> {
        self.id.spec_encoding()
    }

    fn encode_to(&self, out: &mut Vec<u8>) {
        self.id.encode_to(out);
    }
}

/// `FindAssetKeyValueByIdAndKey` Iroha Query will get `AssetId` and key as input and find the value
/// of the key-value pair stored in this asset.
#[derive(Debug, Clone, PartialEq, Eq, PartialOrd, Ord, Hash)]
pub struct FindAssetKeyValueByIdAndKey {
    /// `Id` of an `Asset` acting as `Store`.
    pub id: EvaluatesTo<AssetId>,
    /// The key of the key-value pair stored in the asset.
    pub key: EvaluatesTo<Name>,
}

impl FindAssetKeyValueByIdAndKey {
    /// Default `FindAssetKeyValueByIdAndKey` constructor.
    pub fn new(id: EvaluatesTo<AssetId>, key: EvaluatesTo<Name>) -> (r: FindAssetKeyValueByIdAndKey)
        ensures
            r == (FindAssetKeyValueByIdAndKey { id, key }),
    {
        FindAssetKeyValueByIdAndKey { id, key }
    }
}

impl ScaleEncode for FindAssetKeyValueByIdAndKey {
    open spec fn encodable(&self) -> bool {
        self.id.encodable() && self.key.encodable()
    }

    open spec fn spec_encoding(&self) -> Seq<u8> {
        self.id.spec_encoding() + self.key.spec_encoding()
    }

    fn encode_to(&self, out: &mut Vec<u8>) {
        self.id.encode_to(out);
        self.key.encode_to(out);
        assert(old(out)@ + self.spec_encoding() =~= old(out)@ + self.id.spec_encoding()

            + self.key.spec_encoding());
    }
}

impl DeepView for FindAllAssets {
    type V = ();

    open spec fn deep_view(&self) -> () {
        ()
    }
}

impl ScaleDecode for FindAllAssets {
    proof fn lemma_encoding_determined(a: Self, b: Self) {
    }

    proof fn lemma_encoding_injective(a: Self, b: Self) {
    }

    proof fn lemma_prefix_free(a: Self, b: Self) {
    }

    fn decode_from(input: &[u8]) -> (r: Option<(Self, usize)>) {
        assert(input@.take(0) =~= Seq::<u8>::empty());
        Some((FindAllAssets {}, 0))
    }
}

impl DeepView for FindAllAssetsDefinitions {
    type V = ();

    open spec fn deep_view(&self) -> () {
        ()
    }
}

impl ScaleDecode for FindAllAssetsDefinitions {
    proof fn lemma_encoding_determined(a: Self, b: Self) {
    }

    proof fn lemma_encoding_injective(a: Self, b: Self) {
    }

    proof fn lemma_prefix_free(a: Self, b: Self) {
    }

    fn decode_from(input: &[u8]) -> (r: Option<(Self, usize)>) {
        assert(input@.take(0) =~= Seq::<u8>::empty());
        Some((FindAllAssetsDefinitions {}, 0))
    }
}

impl DeepView for FindAssetById {
    type V = ((Seq<char>, Seq<char>), (Seq<char>, Seq<char>));

    open spec fn deep_view(&self) -> ((Seq<char>, Seq<char>), (Seq<char>, Seq<char>)) {
        self.id.deep_view()
    }
}

impl ScaleDecode for FindAssetById {
    proof fn lemma_encoding_determined(a: Self, b: Self) {
        <EvaluatesTo<AssetId> as ScaleDecode>::lemma_encoding_determined(a.id, b.id);
    }

    proof fn lemma_encoding_injective(a: Self, b: Self) {
        <EvaluatesTo<AssetId> as ScaleDecode>::lemma_encoding_injective(a.id, b.id);
    }

    proof fn lemma_prefix_free(a: Self, b: Self) {
        <EvaluatesTo<AssetId> as ScaleDecode>::lemma_prefix_free(a.id, b.id);
    }

    fn decode_from(input: &[u8]) -> (r: Option<(Self, usize)>) {
        match <EvaluatesTo<AssetId> as ScaleDecode>::decode_from(input) {
            Some((id, n)) => Some((FindAssetById { id }, n)),
            None => {
                assert forall|v: FindAssetById|
                    v.encodable() implies !is_prefix(#[trigger] v.spec_encoding(), input@) by {
                    assert(v.id.encodable());
                }
                None
            },
        }
    }
}

impl DeepView for FindAssetsByName {
    type V = Seq<char>;

    open spec fn deep_view(&self) -> Seq<char> {
        self.name.deep_view()
    }
}

impl ScaleDecode for FindAssetsByName {
    proof fn lemma_encoding_determined(a: Self, b: Self) {
        <EvaluatesTo<Name> as ScaleDecode>::lemma_encoding_determined(a.name, b.name);
    }

    proof fn lemma_encoding_injective(a: Self, b: Self) {
        <EvaluatesTo<Name> as ScaleDecode>::lemma_encoding_injective(a.name, b.name);
    }

    proof fn lemma_prefix_free(a: Self, b: Self) {
        <EvaluatesTo<Name> as ScaleDecode>::lemma_prefix_free(a.name, b.name);
    }

    fn decode_from(input: &[u8]) -> (r: Option<(Self, usize)>) {
        match <EvaluatesTo<Name> as ScaleDecode>::decode_from(input) {
            Some((name, n)) => Some((FindAssetsByName { name }, n)),
            None => {
                assert forall|v: FindAssetsByName|
                    v.encodable() implies !is_prefix(#[trigger] v.spec_encoding(), input@) by {
                    assert(v.name.encodable());
                }
                None
            },
        }
    }
}

impl DeepView for FindAssetsByAccountId {
    type V = (Seq<char>, Seq<char>);

    open spec fn deep_view(&self) -> (Seq<char>, Seq<char>) {
        self.account_id.deep_view()
    }
}

impl ScaleDecode for FindAssetsByAccountId {
    proof fn lemma_encoding_determined(a: Self, b: Self) {
        <EvaluatesTo<AccountId> as ScaleDecode>::lemma_encoding_determined(a.account_id, b.account_id);
    }

    proof fn lemma_encoding_injective(a: Self, b: Self) {
        <EvaluatesTo<AccountId> as ScaleDecode>::lemma_encoding_injective(a.account_id, b.account_id);
    }

    proof fn lemma_prefix_free(a: Self, b: Self) {
        <EvaluatesTo<AccountId> as ScaleDecode>::lemma_prefix_free(a.account_id, b.account_id);
    }

    fn decode_from(input: &[u8]) -> (r: Option<(Self, usize)>) {
        match <EvaluatesTo<AccountId> as ScaleDecode>::decode_from(input) {
            Some((account_id, n)) => Some((FindAssetsByAccountId { account_id }, n)),
            None => {
                assert forall|v: FindAssetsByAccountId|
                    v.encodable() implies !is_prefix(#[trigger] v.spec_encoding(), input@) by {
                    assert(v.account_id.encodable());
                }
                None
            },
        }
    }
}

impl DeepView for FindAssetsByAssetDefinitionId {
    type V = (Seq<char>, Seq<char>);

    open spec fn deep_view(&self) -> (Seq<char>, Seq<char>) {
        self.asset_definition_id.deep_view()
    }
}

impl ScaleDecode for FindAssetsByAssetDefinitionId {
    proof fn lemma_encoding_determined(a: Self, b: Self) {
        <EvaluatesTo<AssetDefinitionId> as ScaleDecode>::lemma_encoding_determined(a.asset_definition_id, b.asset_definition_id);
    }

    proof fn lemma_encoding_injective(a: Self, b: Self) {
        <EvaluatesTo<AssetDefinitionId> as ScaleDecode>::lemma_encoding_injective(a.asset_definition_id, b.asset_definition_id);
    }

    proof fn lemma_prefix_free(a: Self, b: Self) {
        <EvaluatesTo<AssetDefinitionId> as ScaleDecode>::lemma_prefix_free(
            a.asset_definition_id,
            b.asset_definition_id,
        );
    }

    fn decode_from(input: &[u8]) -> (r: Option<(Self, usize)>) {
        match <EvaluatesTo<AssetDefinitionId> as ScaleDecode>::decode_from(input) {
            Some((asset_definition_id, n)) => {
                Some((FindAssetsByAssetDefinitionId { asset_definition_id }, n))
            },
            None => {
                assert forall|v: FindAssetsByAssetDefinitionId|
                    v.encodable() implies !is_prefix(#[trigger] v.spec_encoding(), input@) by {
                    assert(v.asset_definition_id.encodable());
                }
                None
            },
        }
    }
}

impl DeepView for FindAssetsByDomainName {
    type V = Seq<char>;

    open spec fn deep_view(&self) -> Seq<char> {
        self.domain_name.deep_view()
    }
}

impl ScaleDecode for FindAssetsByDomainName {
    proof fn lemma_encoding_determined(a: Self, b: Self) {
        <EvaluatesTo<Name> as ScaleDecode>::lemma_encoding_determined(a.domain_name, b.domain_name);
    }

    proof fn lemma_encoding_injective(a: Self, b: Self) {
        <EvaluatesTo<Name> as ScaleDecode>::lemma_encoding_injective(a.domain_name, b.domain_name);
    }

    proof fn lemma_prefix_free(a: Self, b: Self) {
        <EvaluatesTo<Name> as ScaleDecode>::lemma_prefix_free(a.domain_name, b.domain_name);
    }

    fn decode_from(input: &[u8]) -> (r: Option<(Self, usize)>) {
        match <EvaluatesTo<Name> as ScaleDecode>::decode_from(input) {
            Some((domain_name, n)) => Some((FindAssetsByDomainName { domain_name }, n)),
            None => {
                assert forall|v: FindAssetsByDomainName|
                    v.encodable() implies !is_prefix(#[trigger] v.spec_encoding(), input@) by {
                    assert(v.domain_name.encodable());
                }
                None
            },
        }
    }
}

impl DeepView for FindAssetsByAccountIdAndAssetDefinitionId {
    type V = ((Seq<char>, Seq<char>), (Seq<char>, Seq<char>));

    open spec fn deep_view(&self) -> ((Seq<char>, Seq<char>), (Seq<char>, Seq<char>)) {
        (self.account_id.deep_view(), self.asset_definition_id.deep_view())
    }
}

impl ScaleDecode for FindAssetsByAccountIdAndAssetDefinitionId {
    proof fn lemma_encoding_determined(a: Self, b: Self) {
        <EvaluatesTo<AccountId> as ScaleDecode>::lemma_encoding_determined(a.account_id, b.account_id);
        <EvaluatesTo<AssetDefinitionId> as ScaleDecode>::lemma_encoding_determined(a.asset_definition_id, b.asset_definition_id);
    }

    proof fn lemma_encoding_injective(a: Self, b: Self) {
        lemma_pair_injective(a.account_id, a.asset_definition_id, b.account_id, b.asset_definition_id);
    }

    proof fn lemma_prefix_free(a: Self, b: Self) {
        lemma_pair_prefix_free(
            a.account_id,
            a.asset_definition_id,
            b.account_id,
            b.asset_definition_id,
        );
    }

    fn decode_from(input: &[u8]) -> (r: Option<(Self, usize)>) {
        match decode_pair::<EvaluatesTo<AccountId>, EvaluatesTo<AssetDefinitionId>>(input) {
            Some((account_id, asset_definition_id, n)) => {
                let q = FindAssetsByAccountIdAndAssetDefinitionId {
                    account_id,
                    asset_definition_id,
                };
                Some((q, n))
            },
            None => {
                assert forall|v: FindAssetsByAccountIdAndAssetDefinitionId|
                    v.encodable() implies !is_prefix(#[trigger] v.spec_encoding(), input@) by {
                    assert(v.spec_encoding() == pair_encoding(v.account_id, v.asset_definition_id));
                }
                None
            },
        }
    }
}

impl DeepView for FindAssetsByDomainNameAndAssetDefinitionId {
    type V = (Seq<char>, (Seq<char>, Seq<char>));

    open spec fn deep_view(&self) -> (Seq<char>, (Seq<char>, Seq<char>)) {
        (self.domain_name.deep_view(), self.asset_definition_id.deep_view())
    }
}

impl ScaleDecode for FindAssetsByDomainNameAndAssetDefinitionId {
    proof fn lemma_encoding_determined(a: Self, b: Self) {
        <EvaluatesTo<Name> as ScaleDecode>::lemma_encoding_determined(a.domain_name, b.domain_name);
        <EvaluatesTo<AssetDefinitionId> as ScaleDecode>::lemma_encoding_determined(a.asset_definition_id, b.asset_definition_id);
    }

    proof fn lemma_encoding_injective(a: Self, b: Self) {
        lemma_pair_injective(a.domain_name, a.asset_definition_id, b.domain_name, b.asset_definition_id);
    }

    proof fn lemma_prefix_free(a: Self, b: Self) {
        lemma_pair_prefix_free(
            a.domain_name,
            a.asset_definition_id,
            b.domain_name,
            b.asset_definition_id,
        );
    }

    fn decode_from(input: &[u8]) -> (r: Option<(Self, usize)>) {
        match decode_pair::<EvaluatesTo<Name>, EvaluatesTo<AssetDefinitionId>>(input) {
            Some((domain_name, asset_definition_id, n)) => {
                let q = FindAssetsByDomainNameAndAssetDefinitionId {
                    domain_name,
                    asset_definition_id,
                };
                Some((q, n))
            },
            None => {
                assert forall|v: FindAssetsByDomainNameAndAssetDefinitionId|
                    v.encodable() implies !is_prefix(#[trigger] v.spec_encoding(), input@) by {
                    let e = pair_encoding(v.domain_name, v.asset_definition_id);
                    assert(v.spec_encoding() == e);
                }
                None
            },
        }
    }
}

impl DeepView for FindAssetQuantityById {
    type V = ((Seq<char>, Seq<char>), (Seq<char>, Seq<char>));

    open spec fn deep_view(&self) -> ((Seq<char>, Seq<char>), (Seq<char>, Seq<char>)) {
        self.id.deep_view()
    }
}

impl ScaleDecode for FindAssetQuantityById {
    proof fn lemma_encoding_determined(a: Self, b: Self) {
        <EvaluatesTo<AssetId> as ScaleDecode>::lemma_encoding_determined(a.id, b.id);
    }

    proof fn lemma_encoding_injective(a: Self, b: Self) {
        <EvaluatesTo<AssetId> as ScaleDecode>::lemma_encoding_injective(a.id, b.id);
    }

    proof fn lemma_prefix_free(a: Self, b: Self) {
        <EvaluatesTo<AssetId> as ScaleDecode>::lemma_prefix_free(a.id, b.id);
    }

    fn decode_from(input: &[u8]) -> (r: Option<(Self, usize)>) {
        match <EvaluatesTo<AssetId> as ScaleDecode>::decode_from(input) {
            Some((id, n)) => Some((FindAssetQuantityById { id }, n)),
            None => {
                assert forall|v: FindAssetQuantityById|
                    v.encodable() implies !is_prefix(#[trigger] v.spec_encoding(), input@) by {
                    assert(v.id.encodable());
                }
                None
            },
        }
    }
}

impl DeepView for FindAssetKeyValueByIdAndKey {
    type V = (((Seq<char>, Seq<char>), (Seq<char>, Seq<char>)), Seq<char>);

    open spec fn deep_view(&self) -> (((Seq<char>, Seq<char>), (Seq<char>, Seq<char>)), Seq<char>) {
        (self.id.deep_view(), self.key.deep_view())
    }
}

impl ScaleDecode for FindAssetKeyValueByIdAndKey {
    proof fn lemma_encoding_determined(a: Self, b: Self) {
        <EvaluatesTo<AssetId> as ScaleDecode>::lemma_encoding_determined(a.id, b.id);
        <EvaluatesTo<Name> as ScaleDecode>::lemma_encoding_determined(a.key, b.key);
    }

    proof fn lemma_encoding_injective(a: Self, b: Self) {
        lemma_pair_injective(a.id, a.key, b.id, b.key);
    }

    proof fn lemma_prefix_free(a: Self, b: Self) {
        lemma_pair_prefix_free(a.id, a.key, b.id, b.key);
    }

    fn decode_from(input: &[u8]) -> (r: Option<(Self, usize)>) {
        match decode_pair::<EvaluatesTo<AssetId>, EvaluatesTo<Name>>(input) {
            Some((id, key, n)) => Some((FindAssetKeyValueByIdAndKey { id, key }, n)),
            None => {
                assert forall|v: FindAssetKeyValueByIdAndKey|
                    v.encodable() implies !is_prefix(#[trigger] v.spec_encoding(), input@) by {
                    assert(v.spec_encoding() == pair_encoding(v.id, v.key));
                }
                None
            },
        }
    }
}

impl Introspect for FindAllAssets {
    open spec fn spec_introspect() -> MetaSpec {
        MetaSpec::Struct("FindAllAssets"@, Seq::empty())
    }

    fn introspect() -> (m: Metadata) {
        let mut declarations: Vec<Declaration> = Vec::new();
        proof {
            lemma_decls_spec_empty();
        }
        struct_metadata("FindAllAssets", declarations)
    }
}

impl Introspect for FindAllAssetsDefinitions {
    open spec fn spec_introspect() -> MetaSpec {
        MetaSpec::Struct("FindAllAssetsDefinitions"@, Seq::empty())
    }

    fn introspect() -> (m: Metadata) {
        let mut declarations: Vec<Declaration> = Vec::new();
        proof {
            lemma_decls_spec_empty();
        }
        struct_metadata("FindAllAssetsDefinitions", declarations)
    }
}

impl Introspect for FindAssetById {
    open spec fn spec_introspect() -> MetaSpec {
        let id = <EvaluatesTo<AssetId> as Introspect>::spec_introspect();
        MetaSpec::Struct("FindAssetById"@, Seq::empty().push(named_decl_spec("id"@, id)))
    }

    fn introspect() -> (m: Metadata) {
        let mut declarations: Vec<Declaration> = Vec::new();
        proof {
            lemma_decls_spec_empty();
        }
        let d = <EvaluatesTo<AssetId> as Introspect>::introspect();
        push_declaration(&mut declarations, named_declaration("id", d));
        struct_metadata("FindAssetById", declarations)
    }
}

impl Introspect for FindAssetsByName {
    open spec fn spec_introspect() -> MetaSpec {
        let name = <EvaluatesTo<Name> as Introspect>::spec_introspect();
        MetaSpec::Struct("FindAssetsByName"@, Seq::empty().push(named_decl_spec("name"@, name)))
    }

    fn introspect() -> (m: Metadata) {
        let mut declarations: Vec<Declaration> = Vec::new();
        proof {
            lemma_decls_spec_empty();
        }
        let d = <EvaluatesTo<Name> as Introspect>::introspect();
        push_declaration(&mut declarations, named_declaration("name", d));
        struct_metadata("FindAssetsByName", declarations)
    }
}

impl Introspect for FindAssetsByAccountId {
    open spec fn spec_introspect() -> MetaSpec {
        let account_id = <EvaluatesTo<AccountId> as Introspect>::spec_introspect();
        MetaSpec::Struct(
            "FindAssetsByAccountId"@,
            Seq::empty()
                .push(named_decl_spec("account_id"@, account_id)),
        )
    }

    fn introspect() -> (m: Metadata) {
        let mut declarations: Vec<Declaration> = Vec::new();
        proof {
            lemma_decls_spec_empty();
        }
        let d = <EvaluatesTo<AccountId> as Introspect>::introspect();
        push_declaration(&mut declarations, named_declaration("account_id", d));
        struct_metadata("FindAssetsByAccountId", declarations)
    }
}

impl Introspect for FindAssetsByAssetDefinitionId {
    open spec fn spec_introspect() -> MetaSpec {
        let asset_definition_id = <EvaluatesTo<AssetDefinitionId> as Introspect>::spec_introspect();
        MetaSpec::Struct(
            "FindAssetsByAssetDefinitionId"@,
            Seq::empty()
                .push(named_decl_spec("asset_definition_id"@, asset_definition_id)),
        )
    }

    fn introspect() -> (m: Metadata) {
        let mut declarations: Vec<Declaration> = Vec::new();
        proof {
            lemma_decls_spec_empty();
        }
        let d = <EvaluatesTo<AssetDefinitionId> as Introspect>::introspect();
        push_declaration(&mut declarations, named_declaration("asset_definition_id", d));
        struct_metadata("FindAssetsByAssetDefinitionId", declarations)
    }
}

impl Introspect for FindAssetsByDomainName {
    open spec fn spec_introspect() -> MetaSpec {
        let domain_name = <EvaluatesTo<Name> as Introspect>::spec_introspect();
        MetaSpec::Struct(
            "FindAssetsByDomainName"@,
            Seq::empty()
                .push(named_decl_spec("domain_name"@, domain_name)),
        )
    }

    fn introspect() -> (m: Metadata) {
        let mut declarations: Vec<Declaration> = Vec::new();
        proof {
            lemma_decls_spec_empty();
        }
        let d = <EvaluatesTo<Name> as Introspect>::introspect();
        push_declaration(&mut declarations, named_declaration("domain_name", d));
        struct_metadata("FindAssetsByDomainName", declarations)
    }
}

impl Introspect for FindAssetsByAccountIdAndAssetDefinitionId {
    open spec fn spec_introspect() -> MetaSpec {
        let account_id = <EvaluatesTo<AccountId> as Introspect>::spec_introspect();
        let asset_definition_id = <EvaluatesTo<AssetDefinitionId> as Introspect>::spec_introspect();
        MetaSpec::Struct(
            "FindAssetsByAccountIdAndAssetDefinitionId"@,
            Seq::empty()
                .push(named_decl_spec("account_id"@, account_id))
                .push(named_decl_spec("asset_definition_id"@, asset_definition_id)),
        )
    }

    fn introspect() -> (m: Metadata) {
        let mut declarations: Vec<Declaration> = Vec::new();
        proof {
            lemma_decls_spec_empty();
        }
        let d = <EvaluatesTo<AccountId> as Introspect>::introspect();
        push_declaration(&mut declarations, named_declaration("account_id", d));
        let d = <EvaluatesTo<AssetDefinitionId> as Introspect>::introspect();
        push_declaration(&mut declarations, named_declaration("asset_definition_id", d));
        struct_metadata("FindAssetsByAccountIdAndAssetDefinitionId", declarations)
    }
}

impl Introspect for FindAssetsByDomainNameAndAssetDefinitionId {
    open spec fn spec_introspect() -> MetaSpec {
        let domain_name = <EvaluatesTo<Name> as Introspect>::spec_introspect();
        let asset_definition_id = <EvaluatesTo<AssetDefinitionId> as Introspect>::spec_introspect();
        MetaSpec::Struct(
            "FindAssetsByDomainNameAndAssetDefinitionId"@,
            Seq::empty()
                .push(named_decl_spec("domain_name"@, domain_name))
                .push(named_decl_spec("asset_definition_id"@, asset_definition_id)),
        )
    }

    fn introspect() -> (m: Metadata) {
        let mut declarations: Vec<Declaration> = Vec::new();
        proof {
            lemma_decls_spec_empty();
        }
        let d = <EvaluatesTo<Name> as Introspect>::introspect();
        push_declaration(&mut declarations, named_declaration("domain_name", d));
        let d = <EvaluatesTo<AssetDefinitionId> as Introspect>::introspect();
        push_declaration(&mut declarations, named_declaration("asset_definition_id", d));
        struct_metadata("FindAssetsByDomainNameAndAssetDefinitionId", declarations)
    }
}

impl Introspect for FindAssetQuantityById {
    open spec fn spec_introspect() -> MetaSpec {
        let id = <EvaluatesTo<AssetId> as Introspect>::spec_introspect();
        MetaSpec::Struct("FindAssetQuantityById"@, Seq::empty().push(named_decl_spec("id"@, id)))
    }

    fn introspect() -> (m: Metadata) {
        let mut declarations: Vec<Declaration> = Vec::new();
        proof {
            lemma_decls_spec_empty();
        }
        let d = <EvaluatesTo<AssetId> as Introspect>::introspect();
        push_declaration(&mut declarations, named_declaration("id", d));
        struct_metadata("FindAssetQuantityById", declarations)
    }
}

impl Introspect for FindAssetKeyValueByIdAndKey {
    open spec fn spec_introspect() -> MetaSpec {
        let id = <EvaluatesTo<AssetId> as Introspect>::spec_introspect();
        let key = <EvaluatesTo<Name> as Introspect>::spec_introspect();
        MetaSpec::Struct(
            "FindAssetKeyValueByIdAndKey"@,
            Seq::empty()
                .push(named_decl_spec("id"@, id))
                .push(named_decl_spec("key"@, key)),
        )
    }

    fn introspect() -> (m: Metadata) {
        let mut declarations: Vec<Declaration> = Vec::new();
        proof {
            lemma_decls_spec_empty();
        }
        let d = <EvaluatesTo<AssetId> as Introspect>::introspect();
        push_declaration(&mut declarations, named_declaration("id", d));
        let d = <EvaluatesTo<Name> as Introspect>::introspect();
        push_declaration(&mut declarations, named_declaration("key", d));
        struct_metadata("FindAssetKeyValueByIdAndKey", declarations)
    }
}

/// Each of these types is encoded as its fields, one after the other, in the order in
/// which they are declared (a type without fields as no bytes at all).
pub proof fn law_asset_encodings_follow_field_order()
    ensures
        forall|x: FindAllAssets| #[trigger] x.spec_encoding() == Seq::<u8>::empty(),
        forall|x: FindAllAssetsDefinitions| #[trigger] x.spec_encoding() == Seq::<u8>::empty(),
        forall|v0: EvaluatesTo<AssetId>|
            #[trigger] (FindAssetById { id: v0 }).spec_encoding() == v0.spec_encoding(),
        forall|v0: EvaluatesTo<Name>|
            #[trigger] (FindAssetsByName { name: v0 }).spec_encoding() == v0.spec_encoding(),
        forall|v0: EvaluatesTo<AccountId>|
            #[trigger] (FindAssetsByAccountId { account_id: v0 }).spec_encoding()
                == v0.spec_encoding(),
        forall|v0: EvaluatesTo<AssetDefinitionId>|
            #[trigger] (FindAssetsByAssetDefinitionId { asset_definition_id: v0 }).spec_encoding()
                == v0.spec_encoding(),
        forall|v0: EvaluatesTo<Name>|
            #[trigger] (FindAssetsByDomainName { domain_name: v0 }).spec_encoding()
                == v0.spec_encoding(),
        forall|v0: EvaluatesTo<AccountId>, v1: EvaluatesTo<AssetDefinitionId>|
            #[trigger] (FindAssetsByAccountIdAndAssetDefinitionId {
                account_id: v0,
                asset_definition_id: v1,
            }).spec_encoding()
                == v0.spec_encoding() + v1.spec_encoding(),
        forall|v0: EvaluatesTo<Name>, v1: EvaluatesTo<AssetDefinitionId>|
            #[trigger] (FindAssetsByDomainNameAndAssetDefinitionId {
                domain_name: v0,
                asset_definition_id: v1,
            }).spec_encoding()
                == v0.spec_encoding() + v1.spec_encoding(),
        forall|v0: EvaluatesTo<AssetId>|
            #[trigger] (FindAssetQuantityById { id: v0 }).spec_encoding() == v0.spec_encoding(),
        forall|v0: EvaluatesTo<AssetId>, v1: EvaluatesTo<Name>|
            #[trigger] (FindAssetKeyValueByIdAndKey { id: v0, key: v1 }).spec_encoding()
                == v0.spec_encoding() + v1.spec_encoding(),
{
}

/// Each of these types is described as a struct under its own name that declares its
/// fields, under their names, in the order in which they are declared (the order of the
/// encoding), each described as its own type.
pub proof fn law_asset_descriptions_follow_field_order()
    ensures
        FindAllAssets::spec_introspect() == MetaSpec::Struct("FindAllAssets"@, seq![]),
        FindAllAssetsDefinitions::spec_introspect() == MetaSpec::Struct(
            "FindAllAssetsDefinitions"@,
            seq![
            ],
        ),
        FindAssetById::spec_introspect() == MetaSpec::Struct(
            "FindAssetById"@,
            seq![
                DeclSpec {
                    name: Some("id"@),
                    definition: <EvaluatesTo<AssetId> as Introspect>::spec_introspect(),
                },
            ],
        ),
        FindAssetsByName::spec_introspect() == MetaSpec::Struct(
            "FindAssetsByName"@,
            seq![
                DeclSpec {
                    name: Some("name"@),
                    definition: <EvaluatesTo<Name> as Introspect>::spec_introspect(),
                },
            ],
        ),
        FindAssetsByAccountId::spec_introspect() == MetaSpec::Struct(
            "FindAssetsByAccountId"@,
            seq![
                DeclSpec {
                    name: Some("account_id"@),
                    definition: <EvaluatesTo<AccountId> as Introspect>::spec_introspect(),
                },
            ],
        ),
        FindAssetsByAssetDefinitionId::spec_introspect() == MetaSpec::Struct(
            "FindAssetsByAssetDefinitionId"@,
            seq![
                DeclSpec {
                    name: Some("asset_definition_id"@),
                    definition: <EvaluatesTo<AssetDefinitionId> as Introspect>::spec_introspect(),
                },
            ],
        ),
        FindAssetsByDomainName::spec_introspect() == MetaSpec::Struct(
            "FindAssetsByDomainName"@,
            seq![
                DeclSpec {
                    name: Some("domain_name"@),
                    definition: <EvaluatesTo<Name> as Introspect>::spec_introspect(),
                },
            ],
        ),
        FindAssetsByAccountIdAndAssetDefinitionId::spec_introspect() == MetaSpec::Struct(
            "FindAssetsByAccountIdAndAssetDefinitionId"@,
            seq![
                DeclSpec {
                    name: Some("account_id"@),
                    definition: <EvaluatesTo<AccountId> as Introspect>::spec_introspect(),
                },
                DeclSpec {
                    name: Some("asset_definition_id"@),
                    definition: <EvaluatesTo<AssetDefinitionId> as Introspect>::spec_introspect(),
                },
            ],
        ),
        FindAssetsByDomainNameAndAssetDefinitionId::spec_introspect() == MetaSpec::Struct(
            "FindAssetsByDomainNameAndAssetDefinitionId"@,
            seq![
                DeclSpec {
                    name: Some("domain_name"@),
                    definition: <EvaluatesTo<Name> as Introspect>::spec_introspect(),
                },
                DeclSpec {
                    name: Some("asset_definition_id"@),
                    definition: <EvaluatesTo<AssetDefinitionId> as Introspect>::spec_introspect(),
                },
            ],
        ),
        FindAssetQuantityById::spec_introspect() == MetaSpec::Struct(
            "FindAssetQuantityById"@,
            seq![
                DeclSpec {
                    name: Some("id"@),
                    definition: <EvaluatesTo<AssetId> as Introspect>::spec_introspect(),
                },
            ],
        ),
        FindAssetKeyValueByIdAndKey::spec_introspect() == MetaSpec::Struct(
            "FindAssetKeyValueByIdAndKey"@,
            seq![
                DeclSpec {
                    name: Some("id"@),
                    definition: <EvaluatesTo<AssetId> as Introspect>::spec_introspect(),
                },
                DeclSpec {
                    name: Some("key"@),
                    definition: <EvaluatesTo<Name> as Introspect>::spec_introspect(),
                },
            ],
        ),
{
    lemma_two_declarations(
        named_decl_spec("account_id"@, <EvaluatesTo<AccountId> as Introspect>::spec_introspect()),
        named_decl_spec("asset_definition_id"@, <EvaluatesTo<AssetDefinitionId> as Introspect>::spec_introspect()),
    );
    lemma_two_declarations(
        named_decl_spec("domain_name"@, <EvaluatesTo<Name> as Introspect>::spec_introspect()),
        named_decl_spec("asset_definition_id"@, <EvaluatesTo<AssetDefinitionId> as Introspect>::spec_introspect()),
    );
    lemma_two_declarations(
        named_decl_spec("id"@, <EvaluatesTo<AssetId> as Introspect>::spec_introspect()),
        named_decl_spec("key"@, <EvaluatesTo<Name> as Introspect>::spec_introspect()),
    );
}

} // verus!
