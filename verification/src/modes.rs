//! The collection's ownership mode and asset type.
use vstd::prelude::*;

use crate::error::{NFTCoreError, Revert};

verus! {

/// Who owns a freshly minted token, and whether tokens may change hands.
#[derive(Clone, Copy, PartialEq, Eq, Structural, Debug)]
pub enum OwnershipMode {
    /// The minting account owns the token; it cannot be transferred.
    Minter,
    /// The account named at minting owns the token; it cannot be transferred.
    Assigned,
    /// The account named at minting owns the token; it can be transferred.
    TransferableUnchecked,
    /// The account named at minting owns the token; it can be transferred.
    TransferableChecked,
}

/// What the collection's tokens stand for.
#[derive(Clone, Copy, PartialEq, Eq, Structural, Debug)]
pub enum NFTAssetType {
    Physical,
    Digital,
    Virtual,
}

/// The ownership mode a stored byte stands for.
pub open spec fn ownership_mode_of(b: u8) -> Option<OwnershipMode> {
    if b == 0 {
        Some(OwnershipMode::Minter)
    } else if b == 1 {
        Some(OwnershipMode::Assigned)
    } else if b == 2 {
        Some(OwnershipMode::TransferableUnchecked)
    } else if b == 3 {
        Some(OwnershipMode::TransferableChecked)
    } else {
        None
    }
}

/// The asset type a stored byte stands for.
pub open spec fn asset_type_of(b: u8) -> Option<NFTAssetType> {
    if b == 0 {
        Some(NFTAssetType::Physical)
    } else if b == 1 {
        Some(NFTAssetType::Digital)
    } else if b == 2 {
        Some(NFTAssetType::Virtual)
    } else {
        None
    }
}

/// Whether tokens of a collection in this mode may be transferred and
/// approved for transfer.
pub open spec fn is_transferable(m: OwnershipMode) -> bool {
    m == OwnershipMode::TransferableUnchecked || m == OwnershipMode::TransferableChecked
}

impl OwnershipMode {
    /// Decodes a stored byte; any other byte is `InvalidOwnershipMode`.
    pub fn try_from_u8(b: u8) -> (r: Result<OwnershipMode, Revert>)
        ensures
            r == (match ownership_mode_of(b) {
                Some(m) => Ok(m),
                None => Err(Revert::User(NFTCoreError::InvalidOwnershipMode)),
            }),
    {
        match b {
            0 => Ok(OwnershipMode::Minter),
            1 => Ok(OwnershipMode::Assigned),
            2 => Ok(OwnershipMode::TransferableUnchecked),
            3 => Ok(OwnershipMode::TransferableChecked),
            _ => Err(Revert::User(NFTCoreError::InvalidOwnershipMode)),
        }
    }

    /// The byte under which this mode is stored.
    pub fn to_u8(self) -> (b: u8)
        ensures
            ownership_mode_of(b) == Some(self),
    {
        match self {
            OwnershipMode::Minter => 0,
            OwnershipMode::Assigned => 1,
            OwnershipMode::TransferableUnchecked => 2,
            OwnershipMode::TransferableChecked => 3,
        }
    }

    /// Whether tokens may be transferred and approved for transfer.
    pub fn transferable(self) -> (r: bool)
        ensures
            r == is_transferable(self),
    {
        match self {
            OwnershipMode::Minter | OwnershipMode::Assigned => false,
            OwnershipMode::TransferableUnchecked | OwnershipMode::TransferableChecked => true,
        }
    }
}

impl NFTAssetType {
    /// Decodes a stored byte; any other byte is `InvalidNftAssetType`.
    pub fn try_from_u8(b: u8) -> (r: Result<NFTAssetType, Revert>)
        ensures
            r == (match asset_type_of(b) {
                Some(t) => Ok(t),
                None => Err(Revert::User(NFTCoreError::InvalidNftAssetType)),
            }),
    {
        match b {
            0 => Ok(NFTAssetType::Physical),
            1 => Ok(NFTAssetType::Digital),
            2 => Ok(NFTAssetType::Virtual),
            _ => Err(Revert::User(NFTCoreError::InvalidNftAssetType)),
        }
    }

    /// The byte under which this asset type is stored.
    pub fn to_u8(self) -> (b: u8)
        ensures
            asset_type_of(b) == Some(self),
    {
        match self {
            NFTAssetType::Physical => 0,
            NFTAssetType::Digital => 1,
            NFTAssetType::Virtual => 2,
        }
    }
}

} // verus!
