//! Installing the contract: the settings the installing session passes on,
//! and the entry points the stored contract offers.
use vstd::prelude::*;

use crate::constants::{
    ARG_ALLOW_MINTING, ARG_COLLECTION_NAME, ARG_COLLECTION_SYMBOL, ARG_FROM_ACCOUNT_HASH, ARG_JSON_SCHEMA,
    ARG_OPERATOR, ARG_PUBLIC_MINTING, ARG_TOKEN_ID, ARG_TOKEN_META_DATA, ARG_TOKEN_OWNER,
    ARG_TOTAL_TOKEN_SUPPLY, ARG_TO_ACCOUNT_HASH, ENTRY_POINT_APPROVE, ENTRY_POINT_BALANCE_OF,
    ENTRY_POINT_BURN, ENTRY_POINT_GET_APPROVED, ENTRY_POINT_INIT, ENTRY_POINT_METADATA, ENTRY_POINT_MINT,
    ENTRY_POINT_OWNER_OF, ENTRY_POINT_SET_APPROVE_FOR_ALL, ENTRY_POINT_SET_VARIABLES, ENTRY_POINT_TRANSFER,
};
use crate::error::Revert;
use crate::state::arg_error;
use crate::uint::U256;

verus! {

/// The settings the installing session passes to `init`.
pub struct InstallConfig {
    pub collection_name: String,
    pub collection_symbol: String,
    pub total_token_supply: U256,
    pub allow_minting: bool,
    pub public_minting: bool,
    pub ownership_mode: u8,
    pub nft_asset_type: u8,
    pub json_schema: String,
}

/// The first failed argument read of the installing session, in the order
/// it reads them.
pub open spec fn install_error(
    collection_name: Result<String, Revert>,
    collection_symbol: Result<String, Revert>,
    total_token_supply: Result<U256, Revert>,
    allow_minting: Result<Option<bool>, Revert>,
    public_minting: Result<Option<bool>, Revert>,
    ownership_mode: Result<u8, Revert>,
    nft_asset_type: Result<u8, Revert>,
    json_schema: Result<String, Revert>,
) -> Option<Revert> {
    if collection_name is Err {
        arg_error(collection_name)
    } else if collection_symbol is Err {
        arg_error(collection_symbol)
    } else if total_token_supply is Err {
        arg_error(total_token_supply)
    } else if allow_minting is Err {
        arg_error(allow_minting)
    } else if public_minting is Err {
        arg_error(public_minting)
    } else if ownership_mode is Err {
        arg_error(ownership_mode)
    } else if nft_asset_type is Err {
        arg_error(nft_asset_type)
    } else {
        arg_error(json_schema)
    }
}

/// The settings of the installing session: minting is allowed unless the
/// session says otherwise, and public minting is off unless it says otherwise.
pub fn install_config(
    collection_name: Result<String, Revert>,
    collection_symbol: Result<String, Revert>,
    total_token_supply: Result<U256, Revert>,
    allow_minting: Result<Option<bool>, Revert>,
    public_minting: Result<Option<bool>, Revert>,
    ownership_mode: Result<u8, Revert>,
    nft_asset_type: Result<u8, Revert>,
    json_schema: Result<String, Revert>,
) -> (r: Result<InstallConfig, Revert>)
    ensures
        r is Err <==> install_error(collection_name, collection_symbol, total_token_supply, allow_minting,
            public_minting, ownership_mode, nft_asset_type, json_schema) is Some,
        r matches Err(e) ==> install_error(collection_name, collection_symbol, total_token_supply,
            allow_minting, public_minting, ownership_mode, nft_asset_type, json_schema) == Some(e),
        r matches Ok(c) ==> {
            &&& c.collection_name@ == collection_name->Ok_0@
            &&& c.collection_symbol@ == collection_symbol->Ok_0@
            &&& c.total_token_supply == total_token_supply->Ok_0
            &&& c.allow_minting == (match allow_minting->Ok_0 { Some(b) => b, None => true })
            &&& c.public_minting == (match public_minting->Ok_0 { Some(b) => b, None => false })
            &&& c.ownership_mode == ownership_mode->Ok_0
            &&& c.nft_asset_type == nft_asset_type->Ok_0
            &&& c.json_schema@ == json_schema->Ok_0@
        },
{
    let collection_name = match collection_name {
        Ok(v) => v,
        Err(e) => return Err(e),
    };
    let collection_symbol = match collection_symbol {
        Ok(v) => v,
        Err(e) => return Err(e),
    };
    let total_token_supply = match total_token_supply {
        Ok(v) => v,
        Err(e) => return Err(e),
    };
    let allow_minting = match allow_minting {
        Ok(Some(b)) => b,
        Ok(None) => true,
        Err(e) => return Err(e),
    };
    let public_minting = match public_minting {
        Ok(Some(b)) => b,
        Ok(None) => false,
        Err(e) => return Err(e),
    };
    let ownership_mode = match ownership_mode {
        Ok(v) => v,
        Err(e) => return Err(e),
    };
    let nft_asset_type = match nft_asset_type {
        Ok(v) => v,
        Err(e) => return Err(e),
    };
    let json_schema = match json_schema {
        Ok(v) => v,
        Err(e) => return Err(e),
    };
    Ok(InstallConfig {
        collection_name,
        collection_symbol,
        total_token_supply,
        allow_minting,
        public_minting,
        ownership_mode,
        nft_asset_type,
        json_schema,
    })
}

/// The type of a runtime argument or of a returned value.
#[derive(Clone, Copy, PartialEq, Eq, Structural, Debug)]
pub enum ClType {
    Bool,
    U256,
    String,
    Key,
    Unit,
    OptionKey,
}

/// A named, typed parameter of an entry point.
#[derive(Clone, Copy, Debug)]
pub struct Parameter {
    pub name: &'static str,
    pub cl_type: ClType,
}

/// A public entry point of the stored contract.
pub struct EntryPointDecl {
    pub name: &'static str,
    pub params: Vec<Parameter>,
    pub ret: ClType,
}

pub open spec fn param(name: &'static str, cl_type: ClType) -> Parameter {
    Parameter { name, cl_type }
}

/// The entry points of the stored contract, in the order they are added:
/// name, parameters, and type of the returned value.
pub open spec fn declared_entry_points() -> Seq<(&'static str, Seq<Parameter>, ClType)> {
    seq![
        (ENTRY_POINT_INIT, seq![
            param(ARG_COLLECTION_NAME, ClType::String),
            param(ARG_COLLECTION_SYMBOL, ClType::String),
            param(ARG_TOTAL_TOKEN_SUPPLY, ClType::U256),
            param(ARG_ALLOW_MINTING, ClType::Bool),
            param(ARG_PUBLIC_MINTING, ClType::Bool),
            param(ARG_JSON_SCHEMA, ClType::String),
        ], ClType::Unit),
        (ENTRY_POINT_SET_VARIABLES, seq![param(ARG_ALLOW_MINTING, ClType::Bool)], ClType::Unit),
        (ENTRY_POINT_MINT, seq![
            param(ARG_TOKEN_OWNER, ClType::Key),
            param(ARG_TOKEN_META_DATA, ClType::String),
        ], ClType::Unit),
        (ENTRY_POINT_BURN, seq![param(ARG_TOKEN_ID, ClType::U256)], ClType::Unit),
        (ENTRY_POINT_TRANSFER, seq![
            param(ARG_TOKEN_ID, ClType::U256),
            param(ARG_FROM_ACCOUNT_HASH, ClType::Key),
            param(ARG_TO_ACCOUNT_HASH, ClType::Key),
        ], ClType::Unit),
        (ENTRY_POINT_APPROVE, seq![
            param(ARG_TOKEN_ID, ClType::U256),
            param(ARG_OPERATOR, ClType::Key),
        ], ClType::Unit),
        (ENTRY_POINT_OWNER_OF, seq![param(ARG_TOKEN_ID, ClType::U256)], ClType::Key),
        (ENTRY_POINT_BALANCE_OF, seq![param(ARG_TOKEN_OWNER, ClType::Key)], ClType::U256),
        (ENTRY_POINT_GET_APPROVED, seq![param(ARG_TOKEN_ID, ClType::U256)], ClType::OptionKey),
        (ENTRY_POINT_METADATA, seq![param(ARG_TOKEN_ID, ClType::U256)], ClType::String),
        (ENTRY_POINT_SET_APPROVE_FOR_ALL, seq![param(ARG_TOKEN_OWNER, ClType::Key)], ClType::Unit),
    ]
}

fn decl(name: &'static str, params: Vec<Parameter>, ret: ClType) -> (d: EntryPointDecl)
    ensures
        d.name == name,
        d.params@ == params@,
        d.ret == ret,
{
    EntryPointDecl { name, params, ret }
}

/// The entry points of the stored contract, each public and run in the
/// contract's own context.
pub fn entry_points() -> (r: Vec<EntryPointDecl>)
    ensures
        r@.len() == declared_entry_points().len(),
        forall|i: int| 0 <= i < r@.len() ==>
            (#[trigger] r@[i].name, r@[i].params@, r@[i].ret) == declared_entry_points()[i],
{
    let mut r: Vec<EntryPointDecl> = Vec::new();
    r.push(decl(ENTRY_POINT_INIT, vec![
        Parameter { name: ARG_COLLECTION_NAME, cl_type: ClType::String },
        Parameter { name: ARG_COLLECTION_SYMBOL, cl_type: ClType::String },
        Parameter { name: ARG_TOTAL_TOKEN_SUPPLY, cl_type: ClType::U256 },
        Parameter { name: ARG_ALLOW_MINTING, cl_type: ClType::Bool },
        Parameter { name: ARG_PUBLIC_MINTING, cl_type: ClType::Bool },
        Parameter { name: ARG_JSON_SCHEMA, cl_type: ClType::String },
    ], ClType::Unit));
    r.push(decl(ENTRY_POINT_SET_VARIABLES, vec![
        Parameter { name: ARG_ALLOW_MINTING, cl_type: ClType::Bool },
    ], ClType::Unit));
    r.push(decl(ENTRY_POINT_MINT, vec![
        Parameter { name: ARG_TOKEN_OWNER, cl_type: ClType::Key },
        Parameter { name: ARG_TOKEN_META_DATA, cl_type: ClType::String },
    ], ClType::Unit));
    r.push(decl(ENTRY_POINT_BURN, vec![
        Parameter { name: ARG_TOKEN_ID, cl_type: ClType::U256 },
    ], ClType::Unit));
    r.push(decl(ENTRY_POINT_TRANSFER, vec![
        Parameter { name: ARG_TOKEN_ID, cl_type: ClType::U256 },
        Parameter { name: ARG_FROM_ACCOUNT_HASH, cl_type: ClType::Key },
        Parameter { name: ARG_TO_ACCOUNT_HASH, cl_type: ClType::Key },
    ], ClType::Unit));
    r.push(decl(ENTRY_POINT_APPROVE, vec![
        Parameter { name: ARG_TOKEN_ID, cl_type: ClType::U256 },
        Parameter { name: ARG_OPERATOR, cl_type: ClType::Key },
    ], ClType::Unit));
    r.push(decl(ENTRY_POINT_OWNER_OF, vec![
        Parameter { name: ARG_TOKEN_ID, cl_type: ClType::U256 },
    ], ClType::Key));
    r.push(decl(ENTRY_POINT_BALANCE_OF, vec![
        Parameter { name: ARG_TOKEN_OWNER, cl_type: ClType::Key },
    ], ClType::U256));
    r.push(decl(ENTRY_POINT_GET_APPROVED, vec![
        Parameter { name: ARG_TOKEN_ID, cl_type: ClType::U256 },
    ], ClType::OptionKey));
    r.push(decl(ENTRY_POINT_METADATA, vec![
        Parameter { name: ARG_TOKEN_ID, cl_type: ClType::U256 },
    ], ClType::String));
    r.push(decl(ENTRY_POINT_SET_APPROVE_FOR_ALL, vec![
        Parameter { name: ARG_TOKEN_OWNER, cl_type: ClType::Key },
    ], ClType::Unit));
    assert(r@.len() == declared_entry_points().len());
    assert forall|i: int| 0 <= i < r@.len() implies
        (#[trigger] r@[i].name, r@[i].params@, r@[i].ret) == declared_entry_points()[i] by {
        assert(declared_entry_points()[i].1 =~= r@[i].params@);
    }
    r
}

} // verus!
