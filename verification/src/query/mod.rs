//! Queries, the container that holds any of them, and the requests that carry them.
pub mod account;
pub mod asset;
pub mod domain;
pub mod peer;
pub mod permissions;
pub mod query_box;
pub mod request;
pub mod role;
pub mod transaction;

pub use self::account::{
    FindAccountById, FindAccountKeyValueByIdAndKey, FindAccountsByDomainName, FindAccountsByName,
    FindAllAccounts,
};
pub use self::asset::{
    FindAllAssets, FindAllAssetsDefinitions, FindAssetById, FindAssetKeyValueByIdAndKey,
    FindAssetQuantityById, FindAssetsByAccountId, FindAssetsByAccountIdAndAssetDefinitionId,
    FindAssetsByAssetDefinitionId, FindAssetsByDomainName,
    FindAssetsByDomainNameAndAssetDefinitionId, FindAssetsByName,
};
pub use self::domain::{FindAllDomains, FindDomainByName};
pub use self::peer::{FindAllParameters, FindAllPeers};
pub use self::permissions::FindPermissionTokensByAccountId;
pub use self::role::{FindAllRoles, FindRolesByAccountId};
pub use self::transaction::FindTransactionsByAccountId;
pub use self::query_box::QueryBox;
pub use self::request::{QueryRequest, SignedQueryRequest};
