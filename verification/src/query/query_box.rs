//! The container of all queries: its encoding, its decoding and its description.
use vstd::prelude::*;

use crate::introspect::{
    enum_metadata, lemma_variants_spec_empty, push_variant, single_field_variant, Introspect,
};
use crate::metadata::{
    variant_spec, variants_spec, DeclSpec, EnumVariant, MetaSpec, Metadata, VariantSpec,
};
use crate::scale::{is_prefix, skip_bytes, ScaleDecode, ScaleEncode};

use super::{
    FindAccountById, FindAccountKeyValueByIdAndKey, FindAccountsByDomainName, FindAccountsByName,
    FindAllAccounts, FindAllAssets, FindAllAssetsDefinitions, FindAllDomains, FindAllPeers,
    FindAllRoles, FindAssetById, FindAssetKeyValueByIdAndKey, FindAssetQuantityById,
    FindAssetsByAccountId, FindAssetsByAccountIdAndAssetDefinitionId,
    FindAssetsByAssetDefinitionId, FindAssetsByDomainName,
    FindAssetsByDomainNameAndAssetDefinitionId, FindAssetsByName, FindDomainByName,
    FindPermissionTokensByAccountId, FindRolesByAccountId, FindTransactionsByAccountId,
};

verus! {

/// Sized container for all possible queries.
#[derive(Debug, Clone, PartialEq, Eq, PartialOrd, Ord, Hash)]
pub enum QueryBox {
    /// `FindAllAccounts` variant.
    FindAllAccounts(FindAllAccounts),
    /// `FindAccountById` variant.
    FindAccountById(FindAccountById),
    /// `FindAccountKeyValueByIdAndKey` variant.
    FindAccountKeyValueByIdAndKey(FindAccountKeyValueByIdAndKey),
    /// `FindAccountsByName` variant.
    FindAccountsByName(FindAccountsByName),
    /// `FindAccountsByDomainName` variant.
    FindAccountsByDomainName(FindAccountsByDomainName),
    /// `FindAllAssets` variant.
    FindAllAssets(FindAllAssets),
    /// `FindAllAssetsDefinitions` variant.
    FindAllAssetsDefinitions(FindAllAssetsDefinitions),
    /// `FindAssetById` variant.
    FindAssetById(FindAssetById),
    /// `FindAssetsByName` variant.
    FindAssetsByName(FindAssetsByName),
    /// `FindAssetsByAccountId` variant.
    FindAssetsByAccountId(FindAssetsByAccountId),
    /// `FindAssetsByAssetDefinitionId` variant.
    FindAssetsByAssetDefinitionId(FindAssetsByAssetDefinitionId),
    /// `FindAssetsByDomainName` variant.
    FindAssetsByDomainName(FindAssetsByDomainName),
    /// `FindAssetsByAccountIdAndAssetDefinitionId` variant.
    FindAssetsByAccountIdAndAssetDefinitionId(FindAssetsByAccountIdAndAssetDefinitionId),
    /// `FindAssetsByDomainNameAndAssetDefinitionId` variant.
    FindAssetsByDomainNameAndAssetDefinitionId(FindAssetsByDomainNameAndAssetDefinitionId),
    /// `FindAssetQuantityById` variant.
    FindAssetQuantityById(FindAssetQuantityById),
    /// `FindAssetKeyValueByIdAndKey` variant.
    FindAssetKeyValueByIdAndKey(FindAssetKeyValueByIdAndKey),
    /// `FindAllDomains` variant.
    FindAllDomains(FindAllDomains),
    /// `FindDomainByName` variant.
    FindDomainByName(FindDomainByName),
    /// `FindAllPeers` variant.
    FindAllPeers(FindAllPeers),
    /// `FindTransactionsByAccountId` variant.
    FindTransactionsByAccountId(FindTransactionsByAccountId),
    /// `FindAllRoles` variant.
    FindAllRoles(FindAllRoles),
    /// `FindRolesByAccountId` variant.
    FindRolesByAccountId(FindRolesByAccountId),
    /// `FindPermissionTokensByAccountId` variant.
    FindPermissionTokensByAccountId(FindPermissionTokensByAccountId),
}

/// The index of the query's variant: its place in the declaration of [`QueryBox`].
pub open spec fn query_index(q: QueryBox) -> u8 {
    match q {
        QueryBox::FindAllAccounts(_) => 0,
        QueryBox::FindAccountById(_) => 1,
        QueryBox::FindAccountKeyValueByIdAndKey(_) => 2,
        QueryBox::FindAccountsByName(_) => 3,
        QueryBox::FindAccountsByDomainName(_) => 4,
        QueryBox::FindAllAssets(_) => 5,
        QueryBox::FindAllAssetsDefinitions(_) => 6,
        QueryBox::FindAssetById(_) => 7,
        QueryBox::FindAssetsByName(_) => 8,
        QueryBox::FindAssetsByAccountId(_) => 9,
        QueryBox::FindAssetsByAssetDefinitionId(_) => 10,
        QueryBox::FindAssetsByDomainName(_) => 11,
        QueryBox::FindAssetsByAccountIdAndAssetDefinitionId(_) => 12,
        QueryBox::FindAssetsByDomainNameAndAssetDefinitionId(_) => 13,
        QueryBox::FindAssetQuantityById(_) => 14,
        QueryBox::FindAssetKeyValueByIdAndKey(_) => 15,
        QueryBox::FindAllDomains(_) => 16,
        QueryBox::FindDomainByName(_) => 17,
        QueryBox::FindAllPeers(_) => 18,
        QueryBox::FindTransactionsByAccountId(_) => 19,
        QueryBox::FindAllRoles(_) => 20,
        QueryBox::FindRolesByAccountId(_) => 21,
        QueryBox::FindPermissionTokensByAccountId(_) => 22,
    }
}

/// The encoding of the query that the variant holds.
pub open spec fn inner_encoding(q: QueryBox) -> Seq<u8> {
    match q {
        QueryBox::FindAllAccounts(x) => x.spec_encoding(),
        QueryBox::FindAccountById(x) => x.spec_encoding(),
        QueryBox::FindAccountKeyValueByIdAndKey(x) => x.spec_encoding(),
        QueryBox::FindAccountsByName(x) => x.spec_encoding(),
        QueryBox::FindAccountsByDomainName(x) => x.spec_encoding(),
        QueryBox::FindAllAssets(x) => x.spec_encoding(),
        QueryBox::FindAllAssetsDefinitions(x) => x.spec_encoding(),
        QueryBox::FindAssetById(x) => x.spec_encoding(),
        QueryBox::FindAssetsByName(x) => x.spec_encoding(),
        QueryBox::FindAssetsByAccountId(x) => x.spec_encoding(),
        QueryBox::FindAssetsByAssetDefinitionId(x) => x.spec_encoding(),
        QueryBox::FindAssetsByDomainName(x) => x.spec_encoding(),
        QueryBox::FindAssetsByAccountIdAndAssetDefinitionId(x) => x.spec_encoding(),
        QueryBox::FindAssetsByDomainNameAndAssetDefinitionId(x) => x.spec_encoding(),
        QueryBox::FindAssetQuantityById(x) => x.spec_encoding(),
        QueryBox::FindAssetKeyValueByIdAndKey(x) => x.spec_encoding(),
        QueryBox::FindAllDomains(x) => x.spec_encoding(),
        QueryBox::FindDomainByName(x) => x.spec_encoding(),
        QueryBox::FindAllPeers(x) => x.spec_encoding(),
        QueryBox::FindTransactionsByAccountId(x) => x.spec_encoding(),
        QueryBox::FindAllRoles(x) => x.spec_encoding(),
        QueryBox::FindRolesByAccountId(x) => x.spec_encoding(),
        QueryBox::FindPermissionTokensByAccountId(x) => x.spec_encoding(),
    }
}

impl ScaleEncode for QueryBox {
    open spec fn encodable(&self) -> bool {
        match self {
            QueryBox::FindAllAccounts(q) => q.encodable(),
            QueryBox::FindAccountById(q) => q.encodable(),
            QueryBox::FindAccountKeyValueByIdAndKey(q) => q.encodable(),
            QueryBox::FindAccountsByName(q) => q.encodable(),
            QueryBox::FindAccountsByDomainName(q) => q.encodable(),
            QueryBox::FindAllAssets(q) => q.encodable(),
            QueryBox::FindAllAssetsDefinitions(q) => q.encodable(),
            QueryBox::FindAssetById(q) => q.encodable(),
            QueryBox::FindAssetsByName(q) => q.encodable(),
            QueryBox::FindAssetsByAccountId(q) => q.encodable(),
            QueryBox::FindAssetsByAssetDefinitionId(q) => q.encodable(),
            QueryBox::FindAssetsByDomainName(q) => q.encodable(),
            QueryBox::FindAssetsByAccountIdAndAssetDefinitionId(q) => q.encodable(),
            QueryBox::FindAssetsByDomainNameAndAssetDefinitionId(q) => q.encodable(),
            QueryBox::FindAssetQuantityById(q) => q.encodable(),
            QueryBox::FindAssetKeyValueByIdAndKey(q) => q.encodable(),
            QueryBox::FindAllDomains(q) => q.encodable(),
            QueryBox::FindDomainByName(q) => q.encodable(),
            QueryBox::FindAllPeers(q) => q.encodable(),
            QueryBox::FindTransactionsByAccountId(q) => q.encodable(),
            QueryBox::FindAllRoles(q) => q.encodable(),
            QueryBox::FindRolesByAccountId(q) => q.encodable(),
            QueryBox::FindPermissionTokensByAccountId(q) => q.encodable(),
        }
    }

    /// The index byte of the variant, then the encoding of the query it holds.
    open spec fn spec_encoding(&self) -> Seq<u8> {
        seq![query_index(*self)] + inner_encoding(*self)
    }

    fn encode_to(&self, out: &mut Vec<u8>) {
        let ghost start = out@;
        match self {
            QueryBox::FindAllAccounts(q) => {
                out.push(0u8);
                q.encode_to(out);
                assert(out@ =~= start + (seq![0u8] + q.spec_encoding()));
            },
            QueryBox::FindAccountById(q) => {
                out.push(1u8);
                q.encode_to(out);
                assert(out@ =~= start + (seq![1u8] + q.spec_encoding()));
            },
            QueryBox::FindAccountKeyValueByIdAndKey(q) => {
                out.push(2u8);
                q.encode_to(out);
                assert(out@ =~= start + (seq![2u8] + q.spec_encoding()));
            },
            QueryBox::FindAccountsByName(q) => {
                out.push(3u8);
                q.encode_to(out);
                assert(out@ =~= start + (seq![3u8] + q.spec_encoding()));
            },
            QueryBox::FindAccountsByDomainName(q) => {
                out.push(4u8);
                q.encode_to(out);
                assert(out@ =~= start + (seq![4u8] + q.spec_encoding()));
            },
            QueryBox::FindAllAssets(q) => {
                out.push(5u8);
                q.encode_to(out);
                assert(out@ =~= start + (seq![5u8] + q.spec_encoding()));
            },
            QueryBox::FindAllAssetsDefinitions(q) => {
                out.push(6u8);
                q.encode_to(out);
                assert(out@ =~= start + (seq![6u8] + q.spec_encoding()));
            },
            QueryBox::FindAssetById(q) => {
                out.push(7u8);
                q.encode_to(out);
                assert(out@ =~= start + (seq![7u8] + q.spec_encoding()));
            },
            QueryBox::FindAssetsByName(q) => {
                out.push(8u8);
                q.encode_to(out);
                assert(out@ =~= start + (seq![8u8] + q.spec_encoding()));
            },
            QueryBox::FindAssetsByAccountId(q) => {
                out.push(9u8);
                q.encode_to(out);
                assert(out@ =~= start + (seq![9u8] + q.spec_encoding()));
            },
            QueryBox::FindAssetsByAssetDefinitionId(q) => {
                out.push(10u8);
                q.encode_to(out);
                assert(out@ =~= start + (seq![10u8] + q.spec_encoding()));
            },
            QueryBox::FindAssetsByDomainName(q) => {
                out.push(11u8);
                q.encode_to(out);
                assert(out@ =~= start + (seq![11u8] + q.spec_encoding()));
            },
            QueryBox::FindAssetsByAccountIdAndAssetDefinitionId(q) => {
                out.push(12u8);
                q.encode_to(out);
                assert(out@ =~= start + (seq![12u8] + q.spec_encoding()));
            },
            QueryBox::FindAssetsByDomainNameAndAssetDefinitionId(q) => {
                out.push(13u8);
                q.encode_to(out);
                assert(out@ =~= start + (seq![13u8] + q.spec_encoding()));
            },
            QueryBox::FindAssetQuantityById(q) => {
                out.push(14u8);
                q.encode_to(out);
                assert(out@ =~= start + (seq![14u8] + q.spec_encoding()));
            },
            QueryBox::FindAssetKeyValueByIdAndKey(q) => {
                out.push(15u8);
                q.encode_to(out);
                assert(out@ =~= start + (seq![15u8] + q.spec_encoding()));
            },
            QueryBox::FindAllDomains(q) => {
                out.push(16u8);
                q.encode_to(out);
                assert(out@ =~= start + (seq![16u8] + q.spec_encoding()));
            },
            QueryBox::FindDomainByName(q) => {
                out.push(17u8);
                q.encode_to(out);
                assert(out@ =~= start + (seq![17u8] + q.spec_encoding()));
            },
            QueryBox::FindAllPeers(q) => {
                out.push(18u8);
                q.encode_to(out);
                assert(out@ =~= start + (seq![18u8] + q.spec_encoding()));
            },
            QueryBox::FindTransactionsByAccountId(q) => {
                out.push(19u8);
                q.encode_to(out);
                assert(out@ =~= start + (seq![19u8] + q.spec_encoding()));
            },
            QueryBox::FindAllRoles(q) => {
                out.push(20u8);
                q.encode_to(out);
                assert(out@ =~= start + (seq![20u8] + q.spec_encoding()));
            },
            QueryBox::FindRolesByAccountId(q) => {
                out.push(21u8);
                q.encode_to(out);
                assert(out@ =~= start + (seq![21u8] + q.spec_encoding()));
            },
            QueryBox::FindPermissionTokensByAccountId(q) => {
                out.push(22u8);
                q.encode_to(out);
                assert(out@ =~= start + (seq![22u8] + q.spec_encoding()));
            },
        }
    }
}

impl From<FindAllAccounts> for QueryBox {
    fn from(query: FindAllAccounts) -> (r: QueryBox) {
        QueryBox::FindAllAccounts(query)
    }
}

impl vstd::std_specs::convert::FromSpecImpl<FindAllAccounts> for QueryBox {
    open spec fn obeys_from_spec() -> bool {
        true
    }

    open spec fn from_spec(query: FindAllAccounts) -> QueryBox {
        QueryBox::FindAllAccounts(query)
    }
}

impl From<FindAccountById> for QueryBox {
    fn from(query: FindAccountById) -> (r: QueryBox) {
        QueryBox::FindAccountById(query)
    }
}

impl vstd::std_specs::convert::FromSpecImpl<FindAccountById> for QueryBox {
    open spec fn obeys_from_spec() -> bool {
        true
    }

    open spec fn from_spec(query: FindAccountById) -> QueryBox {
        QueryBox::FindAccountById(query)
    }
}

impl From<FindAccountKeyValueByIdAndKey> for QueryBox {
    fn from(query: FindAccountKeyValueByIdAndKey) -> (r: QueryBox) {
        QueryBox::FindAccountKeyValueByIdAndKey(query)
    }
}

impl vstd::std_specs::convert::FromSpecImpl<FindAccountKeyValueByIdAndKey> for QueryBox {
    open spec fn obeys_from_spec() -> bool {
        true
    }

    open spec fn from_spec(query: FindAccountKeyValueByIdAndKey) -> QueryBox {
        QueryBox::FindAccountKeyValueByIdAndKey(query)
    }
}

impl From<FindAccountsByName> for QueryBox {
    fn from(query: FindAccountsByName) -> (r: QueryBox) {
        QueryBox::FindAccountsByName(query)
    }
}

impl vstd::std_specs::convert::FromSpecImpl<FindAccountsByName> for QueryBox {
    open spec fn obeys_from_spec() -> bool {
        true
    }

    open spec fn from_spec(query: FindAccountsByName) -> QueryBox {
        QueryBox::FindAccountsByName(query)
    }
}

impl From<FindAccountsByDomainName> for QueryBox {
    fn from(query: FindAccountsByDomainName) -> (r: QueryBox) {
        QueryBox::FindAccountsByDomainName(query)
    }
}

impl vstd::std_specs::convert::FromSpecImpl<FindAccountsByDomainName> for QueryBox {
    open spec fn obeys_from_spec() -> bool {
        true
    }

    open spec fn from_spec(query: FindAccountsByDomainName) -> QueryBox {
        QueryBox::FindAccountsByDomainName(query)
    }
}

impl From<FindAllAssets> for QueryBox {
    fn from(query: FindAllAssets) -> (r: QueryBox) {
        QueryBox::FindAllAssets(query)
    }
}

impl vstd::std_specs::convert::FromSpecImpl<FindAllAssets> for QueryBox {
    open spec fn obeys_from_spec() -> bool {
        true
    }

    open spec fn from_spec(query: FindAllAssets) -> QueryBox {
        QueryBox::FindAllAssets(query)
    }
}

impl From<FindAllAssetsDefinitions> for QueryBox {
    fn from(query: FindAllAssetsDefinitions) -> (r: QueryBox) {
        QueryBox::FindAllAssetsDefinitions(query)
    }
}

impl vstd::std_specs::convert::FromSpecImpl<FindAllAssetsDefinitions> for QueryBox {
    open spec fn obeys_from_spec() -> bool {
        true
    }

    open spec fn from_spec(query: FindAllAssetsDefinitions) -> QueryBox {
        QueryBox::FindAllAssetsDefinitions(query)
    }
}

impl From<FindAssetById> for QueryBox {
    fn from(query: FindAssetById) -> (r: QueryBox) {
        QueryBox::FindAssetById(query)
    }
}

impl vstd::std_specs::convert::FromSpecImpl<FindAssetById> for QueryBox {
    open spec fn obeys_from_spec() -> bool {
        true
    }

    open spec fn from_spec(query: FindAssetById) -> QueryBox {
        QueryBox::FindAssetById(query)
    }
}

impl From<FindAssetsByName> for QueryBox {
    fn from(query: FindAssetsByName) -> (r: QueryBox) {
        QueryBox::FindAssetsByName(query)
    }
}

impl vstd::std_specs::convert::FromSpecImpl<FindAssetsByName> for QueryBox {
    open spec fn obeys_from_spec() -> bool {
        true
    }

    open spec fn from_spec(query: FindAssetsByName) -> QueryBox {
        QueryBox::FindAssetsByName(query)
    }
}

impl From<FindAssetsByAccountId> for QueryBox {
    fn from(query: FindAssetsByAccountId) -> (r: QueryBox) {
        QueryBox::FindAssetsByAccountId(query)
    }
}

impl vstd::std_specs::convert::FromSpecImpl<FindAssetsByAccountId> for QueryBox {
    open spec fn obeys_from_spec() -> bool {
        true
    }

    open spec fn from_spec(query: FindAssetsByAccountId) -> QueryBox {
        QueryBox::FindAssetsByAccountId(query)
    }
}

impl From<FindAssetsByAssetDefinitionId> for QueryBox {
    fn from(query: FindAssetsByAssetDefinitionId) -> (r: QueryBox) {
        QueryBox::FindAssetsByAssetDefinitionId(query)
    }
}

impl vstd::std_specs::convert::FromSpecImpl<FindAssetsByAssetDefinitionId> for QueryBox {
    open spec fn obeys_from_spec() -> bool {
        true
    }

    open spec fn from_spec(query: FindAssetsByAssetDefinitionId) -> QueryBox {
        QueryBox::FindAssetsByAssetDefinitionId(query)
    }
}

impl From<FindAssetsByDomainName> for QueryBox {
    fn from(query: FindAssetsByDomainName) -> (r: QueryBox) {
        QueryBox::FindAssetsByDomainName(query)
    }
}

impl vstd::std_specs::convert::FromSpecImpl<FindAssetsByDomainName> for QueryBox {
    open spec fn obeys_from_spec() -> bool {
        true
    }

    open spec fn from_spec(query: FindAssetsByDomainName) -> QueryBox {
        QueryBox::FindAssetsByDomainName(query)
    }
}

impl From<FindAssetsByAccountIdAndAssetDefinitionId> for QueryBox {
    fn from(query: FindAssetsByAccountIdAndAssetDefinitionId) -> (r: QueryBox) {
        QueryBox::FindAssetsByAccountIdAndAssetDefinitionId(query)
    }
}

impl vstd::std_specs::convert::FromSpecImpl<FindAssetsByAccountIdAndAssetDefinitionId> for QueryBox {
    open spec fn obeys_from_spec() -> bool {
        true
    }

    open spec fn from_spec(query: FindAssetsByAccountIdAndAssetDefinitionId) -> QueryBox {
        QueryBox::FindAssetsByAccountIdAndAssetDefinitionId(query)
    }
}

impl From<FindAssetsByDomainNameAndAssetDefinitionId> for QueryBox {
    fn from(query: FindAssetsByDomainNameAndAssetDefinitionId) -> (r: QueryBox) {
        QueryBox::FindAssetsByDomainNameAndAssetDefinitionId(query)
    }
}

impl vstd::std_specs::convert::FromSpecImpl<FindAssetsByDomainNameAndAssetDefinitionId> for QueryBox {
    open spec fn obeys_from_spec() -> bool {
        true
    }

    open spec fn from_spec(query: FindAssetsByDomainNameAndAssetDefinitionId) -> QueryBox {
        QueryBox::FindAssetsByDomainNameAndAssetDefinitionId(query)
    }
}

impl From<FindAssetQuantityById> for QueryBox {
    fn from(query: FindAssetQuantityById) -> (r: QueryBox) {
        QueryBox::FindAssetQuantityById(query)
    }
}

impl vstd::std_specs::convert::FromSpecImpl<FindAssetQuantityById> for QueryBox {
    open spec fn obeys_from_spec() -> bool {
        true
    }

    open spec fn from_spec(query: FindAssetQuantityById) -> QueryBox {
        QueryBox::FindAssetQuantityById(query)
    }
}

impl From<FindAssetKeyValueByIdAndKey> for QueryBox {
    fn from(query: FindAssetKeyValueByIdAndKey) -> (r: QueryBox) {
        QueryBox::FindAssetKeyValueByIdAndKey(query)
    }
}

impl vstd::std_specs::convert::FromSpecImpl<FindAssetKeyValueByIdAndKey> for QueryBox {
    open spec fn obeys_from_spec() -> bool {
        true
    }

    open spec fn from_spec(query: FindAssetKeyValueByIdAndKey) -> QueryBox {
        QueryBox::FindAssetKeyValueByIdAndKey(query)
    }
}

impl From<FindAllDomains> for QueryBox {
    fn from(query: FindAllDomains) -> (r: QueryBox) {
        QueryBox::FindAllDomains(query)
    }
}

impl vstd::std_specs::convert::FromSpecImpl<FindAllDomains> for QueryBox {
    open spec fn obeys_from_spec() -> bool {
        true
    }

    open spec fn from_spec(query: FindAllDomains) -> QueryBox {
        QueryBox::FindAllDomains(query)
    }
}

impl From<FindDomainByName> for QueryBox {
    fn from(query: FindDomainByName) -> (r: QueryBox) {
        QueryBox::FindDomainByName(query)
    }
}

impl vstd::std_specs::convert::FromSpecImpl<FindDomainByName> for QueryBox {
    open spec fn obeys_from_spec() -> bool {
        true
    }

    open spec fn from_spec(query: FindDomainByName) -> QueryBox {
        QueryBox::FindDomainByName(query)
    }
}

impl From<FindAllPeers> for QueryBox {
    fn from(query: FindAllPeers) -> (r: QueryBox) {
        QueryBox::FindAllPeers(query)
    }
}

impl vstd::std_specs::convert::FromSpecImpl<FindAllPeers> for QueryBox {
    open spec fn obeys_from_spec() -> bool {
        true
    }

    open spec fn from_spec(query: FindAllPeers) -> QueryBox {
        QueryBox::FindAllPeers(query)
    }
}

impl From<FindTransactionsByAccountId> for QueryBox {
    fn from(query: FindTransactionsByAccountId) -> (r: QueryBox) {
        QueryBox::FindTransactionsByAccountId(query)
    }
}

impl vstd::std_specs::convert::FromSpecImpl<FindTransactionsByAccountId> for QueryBox {
    open spec fn obeys_from_spec() -> bool {
        true
    }

    open spec fn from_spec(query: FindTransactionsByAccountId) -> QueryBox {
        QueryBox::FindTransactionsByAccountId(query)
    }
}

impl From<FindAllRoles> for QueryBox {
    fn from(query: FindAllRoles) -> (r: QueryBox) {
        QueryBox::FindAllRoles(query)
    }
}

impl vstd::std_specs::convert::FromSpecImpl<FindAllRoles> for QueryBox {
    open spec fn obeys_from_spec() -> bool {
        true
    }

    open spec fn from_spec(query: FindAllRoles) -> QueryBox {
        QueryBox::FindAllRoles(query)
    }
}

impl From<FindRolesByAccountId> for QueryBox {
    fn from(query: FindRolesByAccountId) -> (r: QueryBox) {
        QueryBox::FindRolesByAccountId(query)
    }
}

impl vstd::std_specs::convert::FromSpecImpl<FindRolesByAccountId> for QueryBox {
    open spec fn obeys_from_spec() -> bool {
        true
    }

    open spec fn from_spec(query: FindRolesByAccountId) -> QueryBox {
        QueryBox::FindRolesByAccountId(query)
    }
}

impl From<FindPermissionTokensByAccountId> for QueryBox {
    fn from(query: FindPermissionTokensByAccountId) -> (r: QueryBox) {
        QueryBox::FindPermissionTokensByAccountId(query)
    }
}

impl vstd::std_specs::convert::FromSpecImpl<FindPermissionTokensByAccountId> for QueryBox {
    open spec fn obeys_from_spec() -> bool {
        true
    }

    open spec fn from_spec(query: FindPermissionTokensByAccountId) -> QueryBox {
        QueryBox::FindPermissionTokensByAccountId(query)
    }
}

/// What an encoding that starts `input` says of it: its first byte is the variant's
/// index and the held query's encoding starts the bytes after it.
pub proof fn lemma_query_box_prefix(v: QueryBox, input: Seq<u8>)
    requires
        is_prefix(v.spec_encoding(), input),
    ensures
        input.len() >= 1,
        input[0] == query_index(v),
        is_prefix(inner_encoding(v), input.skip(1)),
{
    let e = v.spec_encoding();
    assert(input.take(e.len() as int) == e);
    assert(input.take(e.len() as int)[0] == input[0]);
    assert(input.skip(1).take(inner_encoding(v).len() as int) =~= input.take(e.len() as int).skip(
        1,
    ));
    assert(e.skip(1) =~= inner_encoding(v));
}

/// The value that a [`QueryBox`] carries: its variant, with the deep view of the query it holds.
pub enum QueryBoxView {
    FindAllAccounts(<FindAllAccounts as DeepView>::V),
    FindAccountById(<FindAccountById as DeepView>::V),
    FindAccountKeyValueByIdAndKey(<FindAccountKeyValueByIdAndKey as DeepView>::V),
    FindAccountsByName(<FindAccountsByName as DeepView>::V),
    FindAccountsByDomainName(<FindAccountsByDomainName as DeepView>::V),
    FindAllAssets(<FindAllAssets as DeepView>::V),
    FindAllAssetsDefinitions(<FindAllAssetsDefinitions as DeepView>::V),
    FindAssetById(<FindAssetById as DeepView>::V),
    FindAssetsByName(<FindAssetsByName as DeepView>::V),
    FindAssetsByAccountId(<FindAssetsByAccountId as DeepView>::V),
    FindAssetsByAssetDefinitionId(<FindAssetsByAssetDefinitionId as DeepView>::V),
    FindAssetsByDomainName(<FindAssetsByDomainName as DeepView>::V),
    FindAssetsByAccountIdAndAssetDefinitionId(<FindAssetsByAccountIdAndAssetDefinitionId as DeepView>::V),
    FindAssetsByDomainNameAndAssetDefinitionId(<FindAssetsByDomainNameAndAssetDefinitionId as DeepView>::V),
    FindAssetQuantityById(<FindAssetQuantityById as DeepView>::V),
    FindAssetKeyValueByIdAndKey(<FindAssetKeyValueByIdAndKey as DeepView>::V),
    FindAllDomains(<FindAllDomains as DeepView>::V),
    FindDomainByName(<FindDomainByName as DeepView>::V),
    FindAllPeers(<FindAllPeers as DeepView>::V),
    FindTransactionsByAccountId(<FindTransactionsByAccountId as DeepView>::V),
    FindAllRoles(<FindAllRoles as DeepView>::V),
    FindRolesByAccountId(<FindRolesByAccountId as DeepView>::V),
    FindPermissionTokensByAccountId(<FindPermissionTokensByAccountId as DeepView>::V),
}

impl DeepView for QueryBox {
    type V = QueryBoxView;

    open spec fn deep_view(&self) -> QueryBoxView {
        match self {
            QueryBox::FindAllAccounts(q) => QueryBoxView::FindAllAccounts(q.deep_view()),
            QueryBox::FindAccountById(q) => QueryBoxView::FindAccountById(q.deep_view()),
            QueryBox::FindAccountKeyValueByIdAndKey(q) => QueryBoxView::FindAccountKeyValueByIdAndKey(q.deep_view()),
            QueryBox::FindAccountsByName(q) => QueryBoxView::FindAccountsByName(q.deep_view()),
            QueryBox::FindAccountsByDomainName(q) => QueryBoxView::FindAccountsByDomainName(q.deep_view()),
            QueryBox::FindAllAssets(q) => QueryBoxView::FindAllAssets(q.deep_view()),
            QueryBox::FindAllAssetsDefinitions(q) => QueryBoxView::FindAllAssetsDefinitions(q.deep_view()),
            QueryBox::FindAssetById(q) => QueryBoxView::FindAssetById(q.deep_view()),
            QueryBox::FindAssetsByName(q) => QueryBoxView::FindAssetsByName(q.deep_view()),
            QueryBox::FindAssetsByAccountId(q) => QueryBoxView::FindAssetsByAccountId(q.deep_view()),
            QueryBox::FindAssetsByAssetDefinitionId(q) => QueryBoxView::FindAssetsByAssetDefinitionId(q.deep_view()),
            QueryBox::FindAssetsByDomainName(q) => QueryBoxView::FindAssetsByDomainName(q.deep_view()),
            QueryBox::FindAssetsByAccountIdAndAssetDefinitionId(q) => QueryBoxView::FindAssetsByAccountIdAndAssetDefinitionId(q.deep_view()),
            QueryBox::FindAssetsByDomainNameAndAssetDefinitionId(q) => QueryBoxView::FindAssetsByDomainNameAndAssetDefinitionId(q.deep_view()),
            QueryBox::FindAssetQuantityById(q) => QueryBoxView::FindAssetQuantityById(q.deep_view()),
            QueryBox::FindAssetKeyValueByIdAndKey(q) => QueryBoxView::FindAssetKeyValueByIdAndKey(q.deep_view()),
            QueryBox::FindAllDomains(q) => QueryBoxView::FindAllDomains(q.deep_view()),
            QueryBox::FindDomainByName(q) => QueryBoxView::FindDomainByName(q.deep_view()),
            QueryBox::FindAllPeers(q) => QueryBoxView::FindAllPeers(q.deep_view()),
            QueryBox::FindTransactionsByAccountId(q) => QueryBoxView::FindTransactionsByAccountId(q.deep_view()),
            QueryBox::FindAllRoles(q) => QueryBoxView::FindAllRoles(q.deep_view()),
            QueryBox::FindRolesByAccountId(q) => QueryBoxView::FindRolesByAccountId(q.deep_view()),
            QueryBox::FindPermissionTokensByAccountId(q) => QueryBoxView::FindPermissionTokensByAccountId(q.deep_view()),
        }
    }
}

impl ScaleDecode for QueryBox {
    proof fn lemma_encoding_determined(a: Self, b: Self) {
        match a {
            QueryBox::FindAllAccounts(x) => {
                if let QueryBox::FindAllAccounts(y) = b {
                    FindAllAccounts::lemma_encoding_determined(x, y);
                }
            },
            QueryBox::FindAccountById(x) => {
                if let QueryBox::FindAccountById(y) = b {
                    FindAccountById::lemma_encoding_determined(x, y);
                }
            },
            QueryBox::FindAccountKeyValueByIdAndKey(x) => {
                if let QueryBox::FindAccountKeyValueByIdAndKey(y) = b {
                    FindAccountKeyValueByIdAndKey::lemma_encoding_determined(x, y);
                }
            },
            QueryBox::FindAccountsByName(x) => {
                if let QueryBox::FindAccountsByName(y) = b {
                    FindAccountsByName::lemma_encoding_determined(x, y);
                }
            },
            QueryBox::FindAccountsByDomainName(x) => {
                if let QueryBox::FindAccountsByDomainName(y) = b {
                    FindAccountsByDomainName::lemma_encoding_determined(x, y);
                }
            },
            QueryBox::FindAllAssets(x) => {
                if let QueryBox::FindAllAssets(y) = b {
                    FindAllAssets::lemma_encoding_determined(x, y);
                }
            },
            QueryBox::FindAllAssetsDefinitions(x) => {
                if let QueryBox::FindAllAssetsDefinitions(y) = b {
                    FindAllAssetsDefinitions::lemma_encoding_determined(x, y);
                }
            },
            QueryBox::FindAssetById(x) => {
                if let QueryBox::FindAssetById(y) = b {
                    FindAssetById::lemma_encoding_determined(x, y);
                }
            },
            QueryBox::FindAssetsByName(x) => {
                if let QueryBox::FindAssetsByName(y) = b {
                    FindAssetsByName::lemma_encoding_determined(x, y);
                }
            },
            QueryBox::FindAssetsByAccountId(x) => {
                if let QueryBox::FindAssetsByAccountId(y) = b {
                    FindAssetsByAccountId::lemma_encoding_determined(x, y);
                }
            },
            QueryBox::FindAssetsByAssetDefinitionId(x) => {
                if let QueryBox::FindAssetsByAssetDefinitionId(y) = b {
                    FindAssetsByAssetDefinitionId::lemma_encoding_determined(x, y);
                }
            },
            QueryBox::FindAssetsByDomainName(x) => {
                if let QueryBox::FindAssetsByDomainName(y) = b {
                    FindAssetsByDomainName::lemma_encoding_determined(x, y);
                }
            },
            QueryBox::FindAssetsByAccountIdAndAssetDefinitionId(x) => {
                if let QueryBox::FindAssetsByAccountIdAndAssetDefinitionId(y) = b {
                    FindAssetsByAccountIdAndAssetDefinitionId::lemma_encoding_determined(x, y);
                }
            },
            QueryBox::FindAssetsByDomainNameAndAssetDefinitionId(x) => {
                if let QueryBox::FindAssetsByDomainNameAndAssetDefinitionId(y) = b {
                    FindAssetsByDomainNameAndAssetDefinitionId::lemma_encoding_determined(x, y);
                }
            },
            QueryBox::FindAssetQuantityById(x) => {
                if let QueryBox::FindAssetQuantityById(y) = b {
                    FindAssetQuantityById::lemma_encoding_determined(x, y);
                }
            },
            QueryBox::FindAssetKeyValueByIdAndKey(x) => {
                if let QueryBox::FindAssetKeyValueByIdAndKey(y) = b {
                    FindAssetKeyValueByIdAndKey::lemma_encoding_determined(x, y);
                }
            },
            QueryBox::FindAllDomains(x) => {
                if let QueryBox::FindAllDomains(y) = b {
                    FindAllDomains::lemma_encoding_determined(x, y);
                }
            },
            QueryBox::FindDomainByName(x) => {
                if let QueryBox::FindDomainByName(y) = b {
                    FindDomainByName::lemma_encoding_determined(x, y);
                }
            },
            QueryBox::FindAllPeers(x) => {
                if let QueryBox::FindAllPeers(y) = b {
                    FindAllPeers::lemma_encoding_determined(x, y);
                }
            },
            QueryBox::FindTransactionsByAccountId(x) => {
                if let QueryBox::FindTransactionsByAccountId(y) = b {
                    FindTransactionsByAccountId::lemma_encoding_determined(x, y);
                }
            },
            QueryBox::FindAllRoles(x) => {
                if let QueryBox::FindAllRoles(y) = b {
                    FindAllRoles::lemma_encoding_determined(x, y);
                }
            },
            QueryBox::FindRolesByAccountId(x) => {
                if let QueryBox::FindRolesByAccountId(y) = b {
                    FindRolesByAccountId::lemma_encoding_determined(x, y);
                }
            },
            QueryBox::FindPermissionTokensByAccountId(x) => {
                if let QueryBox::FindPermissionTokensByAccountId(y) = b {
                    FindPermissionTokensByAccountId::lemma_encoding_determined(x, y);
                }
            },
        }
    }

    proof fn lemma_encoding_injective(a: Self, b: Self) {
        let ea = a.spec_encoding();
        let eb = b.spec_encoding();
        assert(ea[0] == query_index(a));
        assert(eb[0] == query_index(b));
        assert(ea.skip(1) =~= inner_encoding(a));
        assert(eb.skip(1) =~= inner_encoding(b));
        match a {
            QueryBox::FindAllAccounts(x) => {
                if let QueryBox::FindAllAccounts(y) = b {
                    FindAllAccounts::lemma_encoding_injective(x, y);
                }
            },
            QueryBox::FindAccountById(x) => {
                if let QueryBox::FindAccountById(y) = b {
                    FindAccountById::lemma_encoding_injective(x, y);
                }
            },
            QueryBox::FindAccountKeyValueByIdAndKey(x) => {
                if let QueryBox::FindAccountKeyValueByIdAndKey(y) = b {
                    FindAccountKeyValueByIdAndKey::lemma_encoding_injective(x, y);
                }
            },
            QueryBox::FindAccountsByName(x) => {
                if let QueryBox::FindAccountsByName(y) = b {
                    FindAccountsByName::lemma_encoding_injective(x, y);
                }
            },
            QueryBox::FindAccountsByDomainName(x) => {
                if let QueryBox::FindAccountsByDomainName(y) = b {
                    FindAccountsByDomainName::lemma_encoding_injective(x, y);
                }
            },
            QueryBox::FindAllAssets(x) => {
                if let QueryBox::FindAllAssets(y) = b {
                    FindAllAssets::lemma_encoding_injective(x, y);
                }
            },
            QueryBox::FindAllAssetsDefinitions(x) => {
                if let QueryBox::FindAllAssetsDefinitions(y) = b {
                    FindAllAssetsDefinitions::lemma_encoding_injective(x, y);
                }
            },
            QueryBox::FindAssetById(x) => {
                if let QueryBox::FindAssetById(y) = b {
                    FindAssetById::lemma_encoding_injective(x, y);
                }
            },
            QueryBox::FindAssetsByName(x) => {
                if let QueryBox::FindAssetsByName(y) = b {
                    FindAssetsByName::lemma_encoding_injective(x, y);
                }
            },
            QueryBox::FindAssetsByAccountId(x) => {
                if let QueryBox::FindAssetsByAccountId(y) = b {
                    FindAssetsByAccountId::lemma_encoding_injective(x, y);
                }
            },
            QueryBox::FindAssetsByAssetDefinitionId(x) => {
                if let QueryBox::FindAssetsByAssetDefinitionId(y) = b {
                    FindAssetsByAssetDefinitionId::lemma_encoding_injective(x, y);
                }
            },
            QueryBox::FindAssetsByDomainName(x) => {
                if let QueryBox::FindAssetsByDomainName(y) = b {
                    FindAssetsByDomainName::lemma_encoding_injective(x, y);
                }
            },
            QueryBox::FindAssetsByAccountIdAndAssetDefinitionId(x) => {
                if let QueryBox::FindAssetsByAccountIdAndAssetDefinitionId(y) = b {
                    FindAssetsByAccountIdAndAssetDefinitionId::lemma_encoding_injective(x, y);
                }
            },
            QueryBox::FindAssetsByDomainNameAndAssetDefinitionId(x) => {
                if let QueryBox::FindAssetsByDomainNameAndAssetDefinitionId(y) = b {
                    FindAssetsByDomainNameAndAssetDefinitionId::lemma_encoding_injective(x, y);
                }
            },
            QueryBox::FindAssetQuantityById(x) => {
                if let QueryBox::FindAssetQuantityById(y) = b {
                    FindAssetQuantityById::lemma_encoding_injective(x, y);
                }
            },
            QueryBox::FindAssetKeyValueByIdAndKey(x) => {
                if let QueryBox::FindAssetKeyValueByIdAndKey(y) = b {
                    FindAssetKeyValueByIdAndKey::lemma_encoding_injective(x, y);
                }
            },
            QueryBox::FindAllDomains(x) => {
                if let QueryBox::FindAllDomains(y) = b {
                    FindAllDomains::lemma_encoding_injective(x, y);
                }
            },
            QueryBox::FindDomainByName(x) => {
                if let QueryBox::FindDomainByName(y) = b {
                    FindDomainByName::lemma_encoding_injective(x, y);
                }
            },
            QueryBox::FindAllPeers(x) => {
                if let QueryBox::FindAllPeers(y) = b {
                    FindAllPeers::lemma_encoding_injective(x, y);
                }
            },
            QueryBox::FindTransactionsByAccountId(x) => {
                if let QueryBox::FindTransactionsByAccountId(y) = b {
                    FindTransactionsByAccountId::lemma_encoding_injective(x, y);
                }
            },
            QueryBox::FindAllRoles(x) => {
                if let QueryBox::FindAllRoles(y) = b {
                    FindAllRoles::lemma_encoding_injective(x, y);
                }
            },
            QueryBox::FindRolesByAccountId(x) => {
                if let QueryBox::FindRolesByAccountId(y) = b {
                    FindRolesByAccountId::lemma_encoding_injective(x, y);
                }
            },
            QueryBox::FindPermissionTokensByAccountId(x) => {
                if let QueryBox::FindPermissionTokensByAccountId(y) = b {
                    FindPermissionTokensByAccountId::lemma_encoding_injective(x, y);
                }
            },
        }
    }

    proof fn lemma_prefix_free(a: Self, b: Self) {
        let eb = b.spec_encoding();
        lemma_query_box_prefix(a, eb);
        assert(eb[0] == query_index(b));
        assert(eb.skip(1) =~= inner_encoding(b));
        match a {
            QueryBox::FindAllAccounts(x) => {
                if let QueryBox::FindAllAccounts(y) = b {
                    FindAllAccounts::lemma_prefix_free(x, y);
                }
            },
            QueryBox::FindAccountById(x) => {
                if let QueryBox::FindAccountById(y) = b {
                    FindAccountById::lemma_prefix_free(x, y);
                }
            },
            QueryBox::FindAccountKeyValueByIdAndKey(x) => {
                if let QueryBox::FindAccountKeyValueByIdAndKey(y) = b {
                    FindAccountKeyValueByIdAndKey::lemma_prefix_free(x, y);
                }
            },
            QueryBox::FindAccountsByName(x) => {
                if let QueryBox::FindAccountsByName(y) = b {
                    FindAccountsByName::lemma_prefix_free(x, y);
                }
            },
            QueryBox::FindAccountsByDomainName(x) => {
                if let QueryBox::FindAccountsByDomainName(y) = b {
                    FindAccountsByDomainName::lemma_prefix_free(x, y);
                }
            },
            QueryBox::FindAllAssets(x) => {
                if let QueryBox::FindAllAssets(y) = b {
                    FindAllAssets::lemma_prefix_free(x, y);
                }
            },
            QueryBox::FindAllAssetsDefinitions(x) => {
                if let QueryBox::FindAllAssetsDefinitions(y) = b {
                    FindAllAssetsDefinitions::lemma_prefix_free(x, y);
                }
            },
            QueryBox::FindAssetById(x) => {
                if let QueryBox::FindAssetById(y) = b {
                    FindAssetById::lemma_prefix_free(x, y);
                }
            },
            QueryBox::FindAssetsByName(x) => {
                if let QueryBox::FindAssetsByName(y) = b {
                    FindAssetsByName::lemma_prefix_free(x, y);
                }
            },
            QueryBox::FindAssetsByAccountId(x) => {
                if let QueryBox::FindAssetsByAccountId(y) = b {
                    FindAssetsByAccountId::lemma_prefix_free(x, y);
                }
            },
            QueryBox::FindAssetsByAssetDefinitionId(x) => {
                if let QueryBox::FindAssetsByAssetDefinitionId(y) = b {
                    FindAssetsByAssetDefinitionId::lemma_prefix_free(x, y);
                }
            },
            QueryBox::FindAssetsByDomainName(x) => {
                if let QueryBox::FindAssetsByDomainName(y) = b {
                    FindAssetsByDomainName::lemma_prefix_free(x, y);
                }
            },
            QueryBox::FindAssetsByAccountIdAndAssetDefinitionId(x) => {
                if let QueryBox::FindAssetsByAccountIdAndAssetDefinitionId(y) = b {
                    FindAssetsByAccountIdAndAssetDefinitionId::lemma_prefix_free(x, y);
                }
            },
            QueryBox::FindAssetsByDomainNameAndAssetDefinitionId(x) => {
                if let QueryBox::FindAssetsByDomainNameAndAssetDefinitionId(y) = b {
                    FindAssetsByDomainNameAndAssetDefinitionId::lemma_prefix_free(x, y);
                }
            },
            QueryBox::FindAssetQuantityById(x) => {
                if let QueryBox::FindAssetQuantityById(y) = b {
                    FindAssetQuantityById::lemma_prefix_free(x, y);
                }
            },
            QueryBox::FindAssetKeyValueByIdAndKey(x) => {
                if let QueryBox::FindAssetKeyValueByIdAndKey(y) = b {
                    FindAssetKeyValueByIdAndKey::lemma_prefix_free(x, y);
                }
            },
            QueryBox::FindAllDomains(x) => {
                if let QueryBox::FindAllDomains(y) = b {
                    FindAllDomains::lemma_prefix_free(x, y);
                }
            },
            QueryBox::FindDomainByName(x) => {
                if let QueryBox::FindDomainByName(y) = b {
                    FindDomainByName::lemma_prefix_free(x, y);
                }
            },
            QueryBox::FindAllPeers(x) => {
                if let QueryBox::FindAllPeers(y) = b {
                    FindAllPeers::lemma_prefix_free(x, y);
                }
            },
            QueryBox::FindTransactionsByAccountId(x) => {
                if let QueryBox::FindTransactionsByAccountId(y) = b {
                    FindTransactionsByAccountId::lemma_prefix_free(x, y);
                }
            },
            QueryBox::FindAllRoles(x) => {
                if let QueryBox::FindAllRoles(y) = b {
                    FindAllRoles::lemma_prefix_free(x, y);
                }
            },
            QueryBox::FindRolesByAccountId(x) => {
                if let QueryBox::FindRolesByAccountId(y) = b {
                    FindRolesByAccountId::lemma_prefix_free(x, y);
                }
            },
            QueryBox::FindPermissionTokensByAccountId(x) => {
                if let QueryBox::FindPermissionTokensByAccountId(y) = b {
                    FindPermissionTokensByAccountId::lemma_prefix_free(x, y);
                }
            },
        }
    }

    fn decode_from(input: &[u8]) -> (r: Option<(Self, usize)>) {
        if input.len() == 0 {
            assert forall|v: QueryBox|
                v.encodable() implies !is_prefix(#[trigger] v.spec_encoding(), input@) by {
                if is_prefix(v.spec_encoding(), input@) {
                    lemma_query_box_prefix(v, input@);
                }
            }
            return None;
        }
        let tag = input[0];
        let rest = skip_bytes(input, 1);
        let inner: Option<(QueryBox, usize)> = match tag {
            0u8 => match FindAllAccounts::decode_from(rest) {
                Some((q, k)) => Some((QueryBox::FindAllAccounts(q), k)),
                None => None,
            },
            1u8 => match FindAccountById::decode_from(rest) {
                Some((q, k)) => Some((QueryBox::FindAccountById(q), k)),
                None => None,
            },
            2u8 => match FindAccountKeyValueByIdAndKey::decode_from(rest) {
                Some((q, k)) => Some((QueryBox::FindAccountKeyValueByIdAndKey(q), k)),
                None => None,
            },
            3u8 => match FindAccountsByName::decode_from(rest) {
                Some((q, k)) => Some((QueryBox::FindAccountsByName(q), k)),
                None => None,
            },
            4u8 => match FindAccountsByDomainName::decode_from(rest) {
                Some((q, k)) => Some((QueryBox::FindAccountsByDomainName(q), k)),
                None => None,
            },
            5u8 => match FindAllAssets::decode_from(rest) {
                Some((q, k)) => Some((QueryBox::FindAllAssets(q), k)),
                None => None,
            },
            6u8 => match FindAllAssetsDefinitions::decode_from(rest) {
                Some((q, k)) => Some((QueryBox::FindAllAssetsDefinitions(q), k)),
                None => None,
            },
            7u8 => match FindAssetById::decode_from(rest) {
                Some((q, k)) => Some((QueryBox::FindAssetById(q), k)),
                None => None,
            },
            8u8 => match FindAssetsByName::decode_from(rest) {
                Some((q, k)) => Some((QueryBox::FindAssetsByName(q), k)),
                None => None,
            },
            9u8 => match FindAssetsByAccountId::decode_from(rest) {
                Some((q, k)) => Some((QueryBox::FindAssetsByAccountId(q), k)),
                None => None,
            },
            10u8 => match FindAssetsByAssetDefinitionId::decode_from(rest) {
                Some((q, k)) => Some((QueryBox::FindAssetsByAssetDefinitionId(q), k)),
                None => None,
            },
            11u8 => match FindAssetsByDomainName::decode_from(rest) {
                Some((q, k)) => Some((QueryBox::FindAssetsByDomainName(q), k)),
                None => None,
            },
            12u8 => match FindAssetsByAccountIdAndAssetDefinitionId::decode_from(rest) {
                Some((q, k)) => Some((QueryBox::FindAssetsByAccountIdAndAssetDefinitionId(q), k)),
                None => None,
            },
            13u8 => match FindAssetsByDomainNameAndAssetDefinitionId::decode_from(rest) {
                Some((q, k)) => Some((QueryBox::FindAssetsByDomainNameAndAssetDefinitionId(q), k)),
                None => None,
            },
            14u8 => match FindAssetQuantityById::decode_from(rest) {
                Some((q, k)) => Some((QueryBox::FindAssetQuantityById(q), k)),
                None => None,
            },
            15u8 => match FindAssetKeyValueByIdAndKey::decode_from(rest) {
                Some((q, k)) => Some((QueryBox::FindAssetKeyValueByIdAndKey(q), k)),
                None => None,
            },
            16u8 => match FindAllDomains::decode_from(rest) {
                Some((q, k)) => Some((QueryBox::FindAllDomains(q), k)),
                None => None,
            },
            17u8 => match FindDomainByName::decode_from(rest) {
                Some((q, k)) => Some((QueryBox::FindDomainByName(q), k)),
                None => None,
            },
            18u8 => match FindAllPeers::decode_from(rest) {
                Some((q, k)) => Some((QueryBox::FindAllPeers(q), k)),
                None => None,
            },
            19u8 => match FindTransactionsByAccountId::decode_from(rest) {
                Some((q, k)) => Some((QueryBox::FindTransactionsByAccountId(q), k)),
                None => None,
            },
            20u8 => match FindAllRoles::decode_from(rest) {
                Some((q, k)) => Some((QueryBox::FindAllRoles(q), k)),
                None => None,
            },
            21u8 => match FindRolesByAccountId::decode_from(rest) {
                Some((q, k)) => Some((QueryBox::FindRolesByAccountId(q), k)),
                None => None,
            },
            22u8 => match FindPermissionTokensByAccountId::decode_from(rest) {
                Some((q, k)) => Some((QueryBox::FindPermissionTokensByAccountId(q), k)),
                None => None,
            },
            _ => None,
        };
        match inner {
            Some((q, k)) => {
                assert(inner_encoding(q).len() == k);
                assert(query_index(q) == tag);
                assert(input@.take((k + 1) as int) =~= q.spec_encoding());
                Some((q, k + 1))
            },
            None => {
                assert forall|v: QueryBox|
                    v.encodable() implies !is_prefix(#[trigger] v.spec_encoding(), input@) by {
                    if is_prefix(v.spec_encoding(), input@) {
                        lemma_query_box_prefix(v, input@);
                        assert(input@.skip(1) == rest@);
                        match v {
                            QueryBox::FindAllAccounts(x) => {
                                assert(x.encodable());
                            },
                            QueryBox::FindAccountById(x) => {
                                assert(x.encodable());
                            },
                            QueryBox::FindAccountKeyValueByIdAndKey(x) => {
                                assert(x.encodable());
                            },
                            QueryBox::FindAccountsByName(x) => {
                                assert(x.encodable());
                            },
                            QueryBox::FindAccountsByDomainName(x) => {
                                assert(x.encodable());
                            },
                            QueryBox::FindAllAssets(x) => {
                                assert(x.encodable());
                            },
                            QueryBox::FindAllAssetsDefinitions(x) => {
                                assert(x.encodable());
                            },
                            QueryBox::FindAssetById(x) => {
                                assert(x.encodable());
                            },
                            QueryBox::FindAssetsByName(x) => {
                                assert(x.encodable());
                            },
                            QueryBox::FindAssetsByAccountId(x) => {
                                assert(x.encodable());
                            },
                            QueryBox::FindAssetsByAssetDefinitionId(x) => {
                                assert(x.encodable());
                            },
                            QueryBox::FindAssetsByDomainName(x) => {
                                assert(x.encodable());
                            },
                            QueryBox::FindAssetsByAccountIdAndAssetDefinitionId(x) => {
                                assert(x.encodable());
                            },
                            QueryBox::FindAssetsByDomainNameAndAssetDefinitionId(x) => {
                                assert(x.encodable());
                            },
                            QueryBox::FindAssetQuantityById(x) => {
                                assert(x.encodable());
                            },
                            QueryBox::FindAssetKeyValueByIdAndKey(x) => {
                                assert(x.encodable());
                            },
                            QueryBox::FindAllDomains(x) => {
                                assert(x.encodable());
                            },
                            QueryBox::FindDomainByName(x) => {
                                assert(x.encodable());
                            },
                            QueryBox::FindAllPeers(x) => {
                                assert(x.encodable());
                            },
                            QueryBox::FindTransactionsByAccountId(x) => {
                                assert(x.encodable());
                            },
                            QueryBox::FindAllRoles(x) => {
                                assert(x.encodable());
                            },
                            QueryBox::FindRolesByAccountId(x) => {
                                assert(x.encodable());
                            },
                            QueryBox::FindPermissionTokensByAccountId(x) => {
                                assert(x.encodable());
                            },
                        }
                    }
                }
                None
            },
        }
    }
}

/// The description of a variant named `name`, numbered `discriminant`, that holds one
/// unnamed field described by `item`.
pub open spec fn single_field_variant_spec(
    name: Seq<char>,
    discriminant: u8,
    item: MetaSpec,
) -> VariantSpec {
    VariantSpec {
        name,
        discriminant,
        declarations: seq![DeclSpec { name: None, definition: item }],
    }
}

/// The description of the variant of [`QueryBox`] at place `i`: it is numbered by its
/// place and holds one unnamed field, the query.
pub open spec fn query_box_variant(i: int) -> VariantSpec {
    if i == 0 {
        let item = FindAllAccounts::spec_introspect();
        single_field_variant_spec("FindAllAccounts"@, 0, item)
    } else if i == 1 {
        let item = FindAccountById::spec_introspect();
        single_field_variant_spec("FindAccountById"@, 1, item)
    } else if i == 2 {
        let item = FindAccountKeyValueByIdAndKey::spec_introspect();
        single_field_variant_spec("FindAccountKeyValueByIdAndKey"@, 2, item)
    } else if i == 3 {
        let item = FindAccountsByName::spec_introspect();
        single_field_variant_spec("FindAccountsByName"@, 3, item)
    } else if i == 4 {
        let item = FindAccountsByDomainName::spec_introspect();
        single_field_variant_spec("FindAccountsByDomainName"@, 4, item)
    } else if i == 5 {
        let item = FindAllAssets::spec_introspect();
        single_field_variant_spec("FindAllAssets"@, 5, item)
    } else if i == 6 {
        let item = FindAllAssetsDefinitions::spec_introspect();
        single_field_variant_spec("FindAllAssetsDefinitions"@, 6, item)
    } else if i == 7 {
        let item = FindAssetById::spec_introspect();
        single_field_variant_spec("FindAssetById"@, 7, item)
    } else if i == 8 {
        let item = FindAssetsByName::spec_introspect();
        single_field_variant_spec("FindAssetsByName"@, 8, item)
    } else if i == 9 {
        let item = FindAssetsByAccountId::spec_introspect();
        single_field_variant_spec("FindAssetsByAccountId"@, 9, item)
    } else if i == 10 {
        let item = FindAssetsByAssetDefinitionId::spec_introspect();
        single_field_variant_spec("FindAssetsByAssetDefinitionId"@, 10, item)
    } else if i == 11 {
        let item = FindAssetsByDomainName::spec_introspect();
        single_field_variant_spec("FindAssetsByDomainName"@, 11, item)
    } else if i == 12 {
        let item = FindAssetsByAccountIdAndAssetDefinitionId::spec_introspect();
        single_field_variant_spec("FindAssetsByAccountIdAndAssetDefinitionId"@, 12, item)
    } else if i == 13 {
        let item = FindAssetsByDomainNameAndAssetDefinitionId::spec_introspect();
        single_field_variant_spec("FindAssetsByDomainNameAndAssetDefinitionId"@, 13, item)
    } else if i == 14 {
        let item = FindAssetQuantityById::spec_introspect();
        single_field_variant_spec("FindAssetQuantityById"@, 14, item)
    } else if i == 15 {
        let item = FindAssetKeyValueByIdAndKey::spec_introspect();
        single_field_variant_spec("FindAssetKeyValueByIdAndKey"@, 15, item)
    } else if i == 16 {
        let item = FindAllDomains::spec_introspect();
        single_field_variant_spec("FindAllDomains"@, 16, item)
    } else if i == 17 {
        let item = FindDomainByName::spec_introspect();
        single_field_variant_spec("FindDomainByName"@, 17, item)
    } else if i == 18 {
        let item = FindAllPeers::spec_introspect();
        single_field_variant_spec("FindAllPeers"@, 18, item)
    } else if i == 19 {
        let item = FindTransactionsByAccountId::spec_introspect();
        single_field_variant_spec("FindTransactionsByAccountId"@, 19, item)
    } else if i == 20 {
        let item = FindAllRoles::spec_introspect();
        single_field_variant_spec("FindAllRoles"@, 20, item)
    } else if i == 21 {
        let item = FindRolesByAccountId::spec_introspect();
        single_field_variant_spec("FindRolesByAccountId"@, 21, item)
    } else {
        let item = FindPermissionTokensByAccountId::spec_introspect();
        single_field_variant_spec("FindPermissionTokensByAccountId"@, 22, item)
    }
}

/// The descriptions of the variants of [`QueryBox`], in declaration order.
pub open spec fn query_box_variants() -> Seq<VariantSpec> {
    Seq::new(23, |i: int| query_box_variant(i))
}

/// Builds the description of the variant of [`QueryBox`] at place `i`.
fn query_box_variant_at(i: u8) -> (r: EnumVariant)
    requires
        i < 23,
    ensures
        variant_spec(r) == query_box_variant(i as int),
{
    match i {
        0u8 => {
            let item = FindAllAccounts::introspect();
            single_field_variant("FindAllAccounts", 0, item)
        },
        1u8 => {
            let item = FindAccountById::introspect();
            single_field_variant("FindAccountById", 1, item)
        },
        2u8 => {
            let item = FindAccountKeyValueByIdAndKey::introspect();
            single_field_variant("FindAccountKeyValueByIdAndKey", 2, item)
        },
        3u8 => {
            let item = FindAccountsByName::introspect();
            single_field_variant("FindAccountsByName", 3, item)
        },
        4u8 => {
            let item = FindAccountsByDomainName::introspect();
            single_field_variant("FindAccountsByDomainName", 4, item)
        },
        5u8 => {
            let item = FindAllAssets::introspect();
            single_field_variant("FindAllAssets", 5, item)
        },
        6u8 => {
            let item = FindAllAssetsDefinitions::introspect();
            single_field_variant("FindAllAssetsDefinitions", 6, item)
        },
        7u8 => {
            let item = FindAssetById::introspect();
            single_field_variant("FindAssetById", 7, item)
        },
        8u8 => {
            let item = FindAssetsByName::introspect();
            single_field_variant("FindAssetsByName", 8, item)
        },
        9u8 => {
            let item = FindAssetsByAccountId::introspect();
            single_field_variant("FindAssetsByAccountId", 9, item)
        },
        10u8 => {
            let item = FindAssetsByAssetDefinitionId::introspect();
            single_field_variant("FindAssetsByAssetDefinitionId", 10, item)
        },
        11u8 => {
            let item = FindAssetsByDomainName::introspect();
            single_field_variant("FindAssetsByDomainName", 11, item)
        },
        12u8 => {
            let item = FindAssetsByAccountIdAndAssetDefinitionId::introspect();
            single_field_variant("FindAssetsByAccountIdAndAssetDefinitionId", 12, item)
        },
        13u8 => {
            let item = FindAssetsByDomainNameAndAssetDefinitionId::introspect();
            single_field_variant("FindAssetsByDomainNameAndAssetDefinitionId", 13, item)
        },
        14u8 => {
            let item = FindAssetQuantityById::introspect();
            single_field_variant("FindAssetQuantityById", 14, item)
        },
        15u8 => {
            let item = FindAssetKeyValueByIdAndKey::introspect();
            single_field_variant("FindAssetKeyValueByIdAndKey", 15, item)
        },
        16u8 => {
            let item = FindAllDomains::introspect();
            single_field_variant("FindAllDomains", 16, item)
        },
        17u8 => {
            let item = FindDomainByName::introspect();
            single_field_variant("FindDomainByName", 17, item)
        },
        18u8 => {
            let item = FindAllPeers::introspect();
            single_field_variant("FindAllPeers", 18, item)
        },
        19u8 => {
            let item = FindTransactionsByAccountId::introspect();
            single_field_variant("FindTransactionsByAccountId", 19, item)
        },
        20u8 => {
            let item = FindAllRoles::introspect();
            single_field_variant("FindAllRoles", 20, item)
        },
        21u8 => {
            let item = FindRolesByAccountId::introspect();
            single_field_variant("FindRolesByAccountId", 21, item)
        },
        _ => {
            let item = FindPermissionTokensByAccountId::introspect();
            single_field_variant("FindPermissionTokensByAccountId", 22, item)
        },
    }
}

impl Introspect for QueryBox {
    open spec fn spec_introspect() -> MetaSpec {
        MetaSpec::Enum("QueryBox"@, query_box_variants())
    }

    fn introspect() -> (m: Metadata) {
        let mut variants: Vec<EnumVariant> = Vec::new();
        proof {
            lemma_variants_spec_empty();
        }
        let mut i: u8 = 0;
        while i < 23
            invariant
                i <= 23,
                variants_spec(variants@) =~= query_box_variants().take(i as int),
            decreases 23 - i,
        {
            push_variant(&mut variants, query_box_variant_at(i));
            assert(query_box_variants().take(i + 1) =~= query_box_variants().take(i as int).push(
                query_box_variant(i as int),
            ));
            i = i + 1;
        }
        assert(query_box_variants().take(23) =~= query_box_variants());
        enum_metadata("QueryBox", variants)
    }
}


/// A query is encoded as the position of its variant in the declaration of [`QueryBox`]
/// (counted from zero), as one byte, followed by the encoding of the query it holds.
pub proof fn law_query_box_encoding_by_position()
    ensures
        forall|x: FindAllAccounts|
            #[trigger] QueryBox::FindAllAccounts(x).spec_encoding()
                == seq![0u8] + x.spec_encoding(),
        forall|x: FindAccountById|
            #[trigger] QueryBox::FindAccountById(x).spec_encoding()
                == seq![1u8] + x.spec_encoding(),
        forall|x: FindAccountKeyValueByIdAndKey|
            #[trigger] QueryBox::FindAccountKeyValueByIdAndKey(x).spec_encoding()
                == seq![2u8] + x.spec_encoding(),
        forall|x: FindAccountsByName|
            #[trigger] QueryBox::FindAccountsByName(x).spec_encoding()
                == seq![3u8] + x.spec_encoding(),
        forall|x: FindAccountsByDomainName|
            #[trigger] QueryBox::FindAccountsByDomainName(x).spec_encoding()
                == seq![4u8] + x.spec_encoding(),
        forall|x: FindAllAssets|
            #[trigger] QueryBox::FindAllAssets(x).spec_encoding() == seq![5u8] + x.spec_encoding(),
        forall|x: FindAllAssetsDefinitions|
            #[trigger] QueryBox::FindAllAssetsDefinitions(x).spec_encoding()
                == seq![6u8] + x.spec_encoding(),
        forall|x: FindAssetById|
            #[trigger] QueryBox::FindAssetById(x).spec_encoding() == seq![7u8] + x.spec_encoding(),
        forall|x: FindAssetsByName|
            #[trigger] QueryBox::FindAssetsByName(x).spec_encoding()
                == seq![8u8] + x.spec_encoding(),
        forall|x: FindAssetsByAccountId|
            #[trigger] QueryBox::FindAssetsByAccountId(x).spec_encoding()
                == seq![9u8] + x.spec_encoding(),
        forall|x: FindAssetsByAssetDefinitionId|
            #[trigger] QueryBox::FindAssetsByAssetDefinitionId(x).spec_encoding()
                == seq![10u8] + x.spec_encoding(),
        forall|x: FindAssetsByDomainName|
            #[trigger] QueryBox::FindAssetsByDomainName(x).spec_encoding()
                == seq![11u8] + x.spec_encoding(),
        forall|x: FindAssetsByAccountIdAndAssetDefinitionId|
            #[trigger] QueryBox::FindAssetsByAccountIdAndAssetDefinitionId(x).spec_encoding()
                == seq![12u8] + x.spec_encoding(),
        forall|x: FindAssetsByDomainNameAndAssetDefinitionId|
            #[trigger] QueryBox::FindAssetsByDomainNameAndAssetDefinitionId(x).spec_encoding()
                == seq![13u8] + x.spec_encoding(),
        forall|x: FindAssetQuantityById|
            #[trigger] QueryBox::FindAssetQuantityById(x).spec_encoding()
                == seq![14u8] + x.spec_encoding(),
        forall|x: FindAssetKeyValueByIdAndKey|
            #[trigger] QueryBox::FindAssetKeyValueByIdAndKey(x).spec_encoding()
                == seq![15u8] + x.spec_encoding(),
        forall|x: FindAllDomains|
            #[trigger] QueryBox::FindAllDomains(x).spec_encoding()
                == seq![16u8] + x.spec_encoding(),
        forall|x: FindDomainByName|
            #[trigger] QueryBox::FindDomainByName(x).spec_encoding()
                == seq![17u8] + x.spec_encoding(),
        forall|x: FindAllPeers|
            #[trigger] QueryBox::FindAllPeers(x).spec_encoding() == seq![18u8] + x.spec_encoding(),
        forall|x: FindTransactionsByAccountId|
            #[trigger] QueryBox::FindTransactionsByAccountId(x).spec_encoding()
                == seq![19u8] + x.spec_encoding(),
        forall|x: FindAllRoles|
            #[trigger] QueryBox::FindAllRoles(x).spec_encoding() == seq![20u8] + x.spec_encoding(),
        forall|x: FindRolesByAccountId|
            #[trigger] QueryBox::FindRolesByAccountId(x).spec_encoding()
                == seq![21u8] + x.spec_encoding(),
        forall|x: FindPermissionTokensByAccountId|
            #[trigger] QueryBox::FindPermissionTokensByAccountId(x).spec_encoding()
                == seq![22u8] + x.spec_encoding(),
{
}

/// The description of [`QueryBox`] is an enum named `QueryBox` with one variant per query,
/// in declaration order: each variant is named after its query, is numbered by its
/// position (counted from zero), and declares one unnamed field described as the query.
pub proof fn law_query_box_description_by_position()
    ensures
        QueryBox::spec_introspect() == MetaSpec::Enum("QueryBox"@, query_box_variants()),
        query_box_variants().len() == 23,
        query_box_variants()[0] == (VariantSpec {
            name: "FindAllAccounts"@,
            discriminant: 0u8,
            declarations: seq![DeclSpec { name: None, definition: FindAllAccounts::spec_introspect() }],
        }),
        query_box_variants()[1] == (VariantSpec {
            name: "FindAccountById"@,
            discriminant: 1u8,
            declarations: seq![DeclSpec { name: None, definition: FindAccountById::spec_introspect() }],
        }),
        query_box_variants()[2] == (VariantSpec {
            name: "FindAccountKeyValueByIdAndKey"@,
            discriminant: 2u8,
            declarations: seq![DeclSpec { name: None, definition: FindAccountKeyValueByIdAndKey::spec_introspect() }],
        }),
        query_box_variants()[3] == (VariantSpec {
            name: "FindAccountsByName"@,
            discriminant: 3u8,
            declarations: seq![DeclSpec { name: None, definition: FindAccountsByName::spec_introspect() }],
        }),
        query_box_variants()[4] == (VariantSpec {
            name: "FindAccountsByDomainName"@,
            discriminant: 4u8,
            declarations: seq![DeclSpec { name: None, definition: FindAccountsByDomainName::spec_introspect() }],
        }),
        query_box_variants()[5] == (VariantSpec {
            name: "FindAllAssets"@,
            discriminant: 5u8,
            declarations: seq![DeclSpec { name: None, definition: FindAllAssets::spec_introspect() }],
        }),
        query_box_variants()[6] == (VariantSpec {
            name: "FindAllAssetsDefinitions"@,
            discriminant: 6u8,
            declarations: seq![DeclSpec { name: None, definition: FindAllAssetsDefinitions::spec_introspect() }],
        }),
        query_box_variants()[7] == (VariantSpec {
            name: "FindAssetById"@,
            discriminant: 7u8,
            declarations: seq![DeclSpec { name: None, definition: FindAssetById::spec_introspect() }],
        }),
        query_box_variants()[8] == (VariantSpec {
            name: "FindAssetsByName"@,
            discriminant: 8u8,
            declarations: seq![DeclSpec { name: None, definition: FindAssetsByName::spec_introspect() }],
        }),
        query_box_variants()[9] == (VariantSpec {
            name: "FindAssetsByAccountId"@,
            discriminant: 9u8,
            declarations: seq![DeclSpec { name: None, definition: FindAssetsByAccountId::spec_introspect() }],
        }),
        query_box_variants()[10] == (VariantSpec {
            name: "FindAssetsByAssetDefinitionId"@,
            discriminant: 10u8,
            declarations: seq![DeclSpec { name: None, definition: FindAssetsByAssetDefinitionId::spec_introspect() }],
        }),
        query_box_variants()[11] == (VariantSpec {
            name: "FindAssetsByDomainName"@,
            discriminant: 11u8,
            declarations: seq![DeclSpec { name: None, definition: FindAssetsByDomainName::spec_introspect() }],
        }),
        query_box_variants()[12] == (VariantSpec {
            name: "FindAssetsByAccountIdAndAssetDefinitionId"@,
            discriminant: 12u8,
            declarations: seq![DeclSpec { name: None, definition: FindAssetsByAccountIdAndAssetDefinitionId::spec_introspect() }],
        }),
        query_box_variants()[13] == (VariantSpec {
            name: "FindAssetsByDomainNameAndAssetDefinitionId"@,
            discriminant: 13u8,
            declarations: seq![DeclSpec { name: None, definition: FindAssetsByDomainNameAndAssetDefinitionId::spec_introspect() }],
        }),
        query_box_variants()[14] == (VariantSpec {
            name: "FindAssetQuantityById"@,
            discriminant: 14u8,
            declarations: seq![DeclSpec { name: None, definition: FindAssetQuantityById::spec_introspect() }],
        }),
        query_box_variants()[15] == (VariantSpec {
            name: "FindAssetKeyValueByIdAndKey"@,
            discriminant: 15u8,
            declarations: seq![DeclSpec { name: None, definition: FindAssetKeyValueByIdAndKey::spec_introspect() }],
        }),
        query_box_variants()[16] == (VariantSpec {
            name: "FindAllDomains"@,
            discriminant: 16u8,
            declarations: seq![DeclSpec { name: None, definition: FindAllDomains::spec_introspect() }],
        }),
        query_box_variants()[17] == (VariantSpec {
            name: "FindDomainByName"@,
            discriminant: 17u8,
            declarations: seq![DeclSpec { name: None, definition: FindDomainByName::spec_introspect() }],
        }),
        query_box_variants()[18] == (VariantSpec {
            name: "FindAllPeers"@,
            discriminant: 18u8,
            declarations: seq![DeclSpec { name: None, definition: FindAllPeers::spec_introspect() }],
        }),
        query_box_variants()[19] == (VariantSpec {
            name: "FindTransactionsByAccountId"@,
            discriminant: 19u8,
            declarations: seq![DeclSpec { name: None, definition: FindTransactionsByAccountId::spec_introspect() }],
        }),
        query_box_variants()[20] == (VariantSpec {
            name: "FindAllRoles"@,
            discriminant: 20u8,
            declarations: seq![DeclSpec { name: None, definition: FindAllRoles::spec_introspect() }],
        }),
        query_box_variants()[21] == (VariantSpec {
            name: "FindRolesByAccountId"@,
            discriminant: 21u8,
            declarations: seq![DeclSpec { name: None, definition: FindRolesByAccountId::spec_introspect() }],
        }),
        query_box_variants()[22] == (VariantSpec {
            name: "FindPermissionTokensByAccountId"@,
            discriminant: 22u8,
            declarations: seq![DeclSpec { name: None, definition: FindPermissionTokensByAccountId::spec_introspect() }],
        }),
{
}

/// The description of [`QueryBox`] gives each query's variant, as its discriminant, the
/// byte that the query's encoding starts with, and describes the query the variant holds.
pub proof fn law_description_matches_encoding(q: QueryBox)
    ensures
        query_box_variants().len() == 23,
        query_box_variants()[query_index(q) as int].discriminant == q.spec_encoding()[0],
        query_box_variants()[query_index(q) as int].declarations.len() == 1,
{
}

} // verus!
