//! The contract's stored state, its mathematical model, and the entry points
//! that set it up or only read it.
use vstd::prelude::*;

use crate::dict::Dict;
use crate::error::{NFTCoreError, Revert};
use crate::key::{key_account, AccountHash, Key};
use crate::modes::{asset_type_of, ownership_mode_of, NFTAssetType, OwnershipMode};
use crate::uint::U256;

verus! {

/// Everything the contract keeps in global state once it is initialized:
/// its stored values and its dictionaries.
pub struct NftState {
    pub installer: AccountHash,
    pub collection_name: String,
    pub collection_symbol: String,
    pub total_token_supply: U256,
    pub ownership_mode: OwnershipMode,
    pub nft_asset_type: NFTAssetType,
    pub json_schema: String,
    pub allow_minting: bool,
    pub public_minting: bool,
    pub number_of_minted_tokens: U256,
    /// Token id to the key that owns the token.
    pub token_owners: Dict<U256, Key>,
    /// Token id to the account that minted the token.
    pub token_issuers: Dict<U256, Key>,
    pub token_meta_data: Dict<U256, String>,
    pub token_uris: Dict<U256, String>,
    /// Account to the ids it has been given, oldest first.
    pub owned_tokens: Dict<AccountHash, Vec<U256>>,
    /// Token id to the operator approved to transfer it, if any.
    pub operators: Dict<U256, Option<Key>>,
    /// The ids of burnt tokens.
    pub burnt_tokens: Dict<U256, ()>,
    /// Account to the number of tokens it holds that are not burnt.
    pub token_counts: Dict<AccountHash, U256>,
}

/// The mathematical model of `NftState`.
#[verifier::ext_equal]
pub struct NftView {
    pub installer: AccountHash,
    pub collection_name: Seq<char>,
    pub collection_symbol: Seq<char>,
    pub total_token_supply: U256,
    pub ownership_mode: OwnershipMode,
    pub nft_asset_type: NFTAssetType,
    pub json_schema: Seq<char>,
    pub allow_minting: bool,
    pub public_minting: bool,
    /// The number of tokens minted so far, which is also the next token id.
    pub minted: U256,
    pub owners: Map<U256, Key>,
    pub issuers: Map<U256, Key>,
    pub meta_data: Map<U256, Seq<char>>,
    pub uris: Map<U256, Seq<char>>,
    pub owned: Map<AccountHash, Seq<U256>>,
    pub operators: Map<U256, Option<Key>>,
    pub burnt: Set<U256>,
    pub counts: Map<AccountHash, nat>,
}

impl View for NftState {
    type V = NftView;

    open spec fn view(&self) -> NftView {
        NftView {
            installer: self.installer,
            collection_name: self.collection_name@,
            collection_symbol: self.collection_symbol@,
            total_token_supply: self.total_token_supply,
            ownership_mode: self.ownership_mode,
            nft_asset_type: self.nft_asset_type,
            json_schema: self.json_schema@,
            allow_minting: self.allow_minting,
            public_minting: self.public_minting,
            minted: self.number_of_minted_tokens,
            owners: self.token_owners@,
            issuers: self.token_issuers@,
            meta_data: self.token_meta_data@.map_values(|s: String| s@),
            uris: self.token_uris@.map_values(|s: String| s@),
            owned: self.owned_tokens@.map_values(|v: Vec<U256>| v@),
            operators: self.operators@,
            burnt: self.burnt_tokens@.dom(),
            counts: self.token_counts@.map_values(|c: U256| c@),
        }
    }
}

/// The error an argument read ended with, if any.
pub open spec fn arg_error<T>(r: Result<T, Revert>) -> Option<Revert> {
    match r {
        Ok(_) => None,
        Err(e) => Some(e),
    }
}

/// The outcomes of reading the arguments of the `init` entry point.
pub struct InitArgs {
    pub collection_name: Result<String, Revert>,
    pub collection_symbol: Result<String, Revert>,
    pub total_token_supply: Result<U256, Revert>,
    pub allow_minting: Result<bool, Revert>,
    pub public_minting: Result<bool, Revert>,
    pub ownership_mode: Result<u8, Revert>,
    pub nft_asset_type: Result<u8, Revert>,
    pub json_schema: Result<String, Revert>,
}

/// The first reason `init` reverts, in the order the entry point checks them.
pub open spec fn init_error(
    already_initialized: bool,
    installer: Result<AccountHash, Revert>,
    caller: AccountHash,
    args: InitArgs,
) -> Option<Revert> {
    if already_initialized {
        Some(Revert::User(NFTCoreError::ContractAlreadyInitialized))
    } else if installer is Err {
        arg_error(installer)
    } else if installer->Ok_0 != caller {
        Some(Revert::User(NFTCoreError::InvalidAccount))
    } else if args.collection_name is Err {
        arg_error(args.collection_name)
    } else if args.collection_symbol is Err {
        arg_error(args.collection_symbol)
    } else if args.total_token_supply is Err {
        arg_error(args.total_token_supply)
    } else if args.allow_minting is Err {
        arg_error(args.allow_minting)
    } else if args.public_minting is Err {
        arg_error(args.public_minting)
    } else if args.ownership_mode is Err {
        arg_error(args.ownership_mode)
    } else if ownership_mode_of(args.ownership_mode->Ok_0) is None {
        Some(Revert::User(NFTCoreError::InvalidOwnershipMode))
    } else if args.nft_asset_type is Err {
        arg_error(args.nft_asset_type)
    } else if asset_type_of(args.nft_asset_type->Ok_0) is None {
        Some(Revert::User(NFTCoreError::InvalidNftAssetType))
    } else if args.json_schema is Err {
        arg_error(args.json_schema)
    } else {
        None
    }
}

/// The state right after a successful `init`: the given settings, no token
/// minted, every dictionary empty.
pub open spec fn init_view(installer: AccountHash, args: InitArgs) -> NftView {
    NftView {
        installer: installer,
        collection_name: args.collection_name->Ok_0@,
        collection_symbol: args.collection_symbol->Ok_0@,
        total_token_supply: args.total_token_supply->Ok_0,
        ownership_mode: ownership_mode_of(args.ownership_mode->Ok_0)->Some_0,
        nft_asset_type: asset_type_of(args.nft_asset_type->Ok_0)->Some_0,
        json_schema: args.json_schema->Ok_0@,
        allow_minting: args.allow_minting->Ok_0,
        public_minting: args.public_minting->Ok_0,
        minted: U256 { w0: 0, w1: 0, w2: 0, w3: 0 },
        owners: Map::empty(),
        issuers: Map::empty(),
        meta_data: Map::empty(),
        uris: Map::empty(),
        owned: Map::empty(),
        operators: Map::empty(),
        burnt: Set::empty(),
        counts: Map::empty(),
    }
}

/// The installer's change to the stored settings through `set_variables`.
pub open spec fn set_variables_error(
    s: NftView,
    caller: AccountHash,
    allow_minting: Result<Option<bool>, Revert>,
) -> Option<Revert> {
    if s.installer != caller {
        Some(Revert::User(NFTCoreError::InvalidAccount))
    } else {
        arg_error(allow_minting)
    }
}

pub open spec fn set_variables_view(s: NftView, allow_minting: Option<bool>) -> NftView {
    match allow_minting {
        Some(b) => NftView { allow_minting: b, ..s },
        None => s,
    }
}

/// Inserting into a map and then mapping its values is mapping and then
/// inserting the mapped value.
pub proof fn lemma_map_values_insert<K, V, W>(m: Map<K, V>, k: K, v: V, f: spec_fn(V) -> W)
    ensures
        m.insert(k, v).map_values(f) == m.map_values(f).insert(k, f(v)),
{
    assert(m.insert(k, v).map_values(f) =~= m.map_values(f).insert(k, f(v)));
}

impl NftState {
    /// The `init` entry point: checks that the contract is not initialized
    /// yet and that the installer calls, decodes the settings, and sets up
    /// the stored values and empty dictionaries.
    pub fn init(
        already_initialized: bool,
        installer: Result<AccountHash, Revert>,
        caller: AccountHash,
        args: InitArgs,
    ) -> (r: Result<NftState, Revert>)
        ensures
            r is Err <==> init_error(already_initialized, installer, caller, args) is Some,
            r matches Err(e) ==> init_error(already_initialized, installer, caller, args) == Some(e),
            r matches Ok(s) ==> s@ == init_view(installer->Ok_0, args),
    {
        if already_initialized {
            return Err(Revert::User(NFTCoreError::ContractAlreadyInitialized));
        }
        let installer = match installer {
            Ok(a) => a,
            Err(e) => return Err(e),
        };
        if !installer.same(&caller) {
            return Err(Revert::User(NFTCoreError::InvalidAccount));
        }
        let ghost a = args;
        let InitArgs {
            collection_name,
            collection_symbol,
            total_token_supply,
            allow_minting,
            public_minting,
            ownership_mode,
            nft_asset_type,
            json_schema,
        } = args;
        let collection_name = match collection_name {
            Ok(v) => v,
            Err(e) => return Err(e),
        };
        let collection_symbol = match collection_symbol {
            Ok(v) => v,
            Err(e) => return Err(e),
        };
        let total_token_supply = match total_token_supply {
            Ok(v) => v,
            Err(e) => return Err(e),
        };
        let allow_minting = match allow_minting {
            Ok(v) => v,
            Err(e) => return Err(e),
        };
        let public_minting = match public_minting {
            Ok(v) => v,
            Err(e) => return Err(e),
        };
        let ownership_mode = match ownership_mode {
            Ok(v) => v,
            Err(e) => return Err(e),
        };
        let ownership_mode = match OwnershipMode::try_from_u8(ownership_mode) {
            Ok(m) => m,
            Err(e) => return Err(e),
        };
        let nft_asset_type = match nft_asset_type {
            Ok(v) => v,
            Err(e) => return Err(e),
        };
        let nft_asset_type = match NFTAssetType::try_from_u8(nft_asset_type) {
            Ok(t) => t,
            Err(e) => return Err(e),
        };
        let json_schema = match json_schema {
            Ok(v) => v,
            Err(e) => return Err(e),
        };
        let s = NftState {
            installer,
            collection_name,
            collection_symbol,
            total_token_supply,
            ownership_mode,
            nft_asset_type,
            json_schema,
            allow_minting,
            public_minting,
            number_of_minted_tokens: U256::zero(),
            token_owners: Dict::new(),
            token_issuers: Dict::new(),
            token_meta_data: Dict::new(),
            token_uris: Dict::new(),
            owned_tokens: Dict::new(),
            operators: Dict::new(),
            burnt_tokens: Dict::new(),
            token_counts: Dict::new(),
        };
        assert(s@ =~= init_view(installer, a));
        Ok(s)
    }

    /// The `set_variables` entry point: the installer may switch minting on
    /// or off.
    pub fn set_variables(&mut self, caller: AccountHash, allow_minting: Result<Option<bool>, Revert>) -> (r: Result<(), Revert>)
        ensures
            r is Err <==> set_variables_error(old(self)@, caller, allow_minting) is Some,
            r matches Err(e) ==> set_variables_error(old(self)@, caller, allow_minting) == Some(e)
                && *final(self) == *old(self),
            r is Ok ==> final(self)@ == set_variables_view(old(self)@, allow_minting->Ok_0),
            r is Ok && allow_minting == Ok::<Option<bool>, Revert>(None) ==> final(self)@ == old(self)@,
            r is Ok ==> (allow_minting matches Ok(Some(b)) ==> final(self)@ == (NftView { allow_minting: b, ..old(self)@ })),
    {
        if !self.installer.same(&caller) {
            return Err(Revert::User(NFTCoreError::InvalidAccount));
        }
        match allow_minting {
            Err(e) => Err(e),
            Ok(Some(b)) => {
                self.allow_minting = b;
                assert(self@ =~= set_variables_view(old(self)@, allow_minting->Ok_0));
                Ok(())
            },
            Ok(None) => Ok(()),
        }
    }
}

} // verus!
