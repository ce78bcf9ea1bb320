//! Names of entry points, runtime arguments and stored values.
use vstd::prelude::*;

verus! {

pub const ENTRY_POINT_INIT: &'static str = "init";
pub const ENTRY_POINT_SET_VARIABLES: &'static str = "set_variables";
pub const ENTRY_POINT_MINT: &'static str = "mint";
pub const ENTRY_POINT_BURN: &'static str = "burn";
pub const ENTRY_POINT_TRANSFER: &'static str = "transfer";
pub const ENTRY_POINT_APPROVE: &'static str = "approve";
pub const ENTRY_POINT_SET_APPROVE_FOR_ALL: &'static str = "set_approval_for_all";
pub const ENTRY_POINT_OWNER_OF: &'static str = "owner_of";
pub const ENTRY_POINT_GET_APPROVED: &'static str = "get_approved";
pub const ENTRY_POINT_BALANCE_OF: &'static str = "balance_of";
pub const ENTRY_POINT_METADATA: &'static str = "metadata";

pub const ARG_COLLECTION_NAME: &'static str = "collection_name";
pub const ARG_COLLECTION_SYMBOL: &'static str = "collection_symbol";
pub const ARG_TOTAL_TOKEN_SUPPLY: &'static str = "total_token_supply";
pub const ARG_ALLOW_MINTING: &'static str = "allow_minting";
pub const ARG_PUBLIC_MINTING: &'static str = "public_minting";
pub const ARG_OWNERSHIP_MODE: &'static str = "ownership_mode";
pub const ARG_NFT_ASSET_TYPE: &'static str = "nft_asset_type";
pub const ARG_JSON_SCHEMA: &'static str = "json_schema";
pub const ARG_TOKEN_OWNER: &'static str = "token_owner";
pub const ARG_TOKEN_META_DATA: &'static str = "token_meta_data";
pub const ARG_TOKEN_URI: &'static str = "token_uri";
pub const ARG_TOKEN_ID: &'static str = "token_id";
pub const ARG_FROM_ACCOUNT_HASH: &'static str = "from_account_hash";
pub const ARG_TO_ACCOUNT_HASH: &'static str = "to_account_hash";
pub const ARG_OPERATOR: &'static str = "operator";
pub const ARG_APPROVE_ALL: &'static str = "approve_all";

pub const INSTALLER: &'static str = "installer";
pub const COLLECTION_NAME: &'static str = "collection_name";
pub const COLLECTION_SYMBOL: &'static str = "collection_symbol";
pub const TOTAL_TOKEN_SUPPLY: &'static str = "total_token_supply";
pub const OWNERSHIP_MODE: &'static str = "ownership_mode";
pub const NFT_ASSET_TYPE: &'static str = "nft_asset_type";
pub const JSON_SCHEMA: &'static str = "json_schema";
pub const ALLOW_MINTING: &'static str = "allow_minting";
pub const PUBLIC_MINTING: &'static str = "public_minting";
pub const NUMBER_OF_MINTED_TOKENS: &'static str = "number_of_minted_tokens";

pub const TOKEN_OWNERS: &'static str = "token_owners";
pub const TOKEN_ISSUERS: &'static str = "token_issuers";
pub const TOKEN_META_DATA: &'static str = "token_meta_data";
pub const TOKEN_URI: &'static str = "token_uri";
pub const OWNED_TOKENS: &'static str = "owned_tokens";
pub const OPERATOR: &'static str = "operator";
pub const BURNT_TOKENS: &'static str = "burnt_tokens";
pub const TOKEN_COUNTS: &'static str = "balances";

pub const CONTRACT_NAME: &'static str = "nft_contract";
pub const CONTRACT_VERSION: &'static str = "contract_version";
pub const HASH_KEY_NAME: &'static str = "nft_contract_package";
pub const ACCESS_KEY_NAME: &'static str = "nft_contract_package_access";

} // verus!
