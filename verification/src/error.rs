//! Why an entry point stops and undoes its writes.
use vstd::prelude::*;

verus! {

/// The contract's own error conditions.
#[derive(Clone, Copy, PartialEq, Eq, Structural, Debug)]
pub enum NFTCoreError {
    InvalidAccount,
    MissingInstaller,
    InvalidInstaller,
    ContractAlreadyInitialized,
    MissingCollectionName,
    InvalidCollectionName,
    MissingCollectionSymbol,
    InvalidCollectionSymbol,
    MissingTotalTokenSupply,
    InvalidTotalTokenSupply,
    MissingMintingStatus,
    InvalidMintingStatus,
    MissingPublicMinting,
    InvalidPublicMinting,
    MissingOwnershipMode,
    InvalidOwnershipMode,
    MissingNftAssetType,
    InvalidNftAssetType,
    MissingJsonSchema,
    InvalidJsonSchema,
    FailedToCreateDictionary,
    MissingAllowMinting,
    InvalidAllowMinting,
    MintingIsPaused,
    MissingNumberOfMintedTokens,
    InvalidNumberOfMintedTokens,
    TokenSupplyDepleted,
    MissingInstallerKey,
    FailedToConvertToAccountHash,
    InvalidMinter,
    MissingTokenURI,
    InvalidTokenURI,
    MissingTokenMetaData,
    InvalidTokenMetaData,
    InvalidKey,
    MissingOwnedTokens,
    InvalidOwnedTokens,
    FatalTokenIdDuplication,
    FailedToConvertToCLValue,
    MissingTokenID,
    InvalidTokenID,
    InvalidTokenOwner,
    PreviouslyBurntToken,
    MissingAccountHash,
    InvalidAccountHash,
    MissingApprovedAccountHash,
    InvalidApprovedAccountHash,
    MissingStorageUref,
    InvalidStorageUref,
    MissingApproveAll,
    InvalidApproveAll,
    MissingOperator,
    InvalidOperator,
    FailedToGetArgBytes,
}

/// Why an entry point reverts: one of the contract's own errors, or one of
/// the platform's errors raised while reading an argument or unwrapping.
#[derive(Clone, Copy, PartialEq, Eq, Structural, Debug)]
pub enum Revert {
    User(NFTCoreError),
    /// A required runtime argument is absent.
    MissingArgument,
    /// A runtime argument does not decode to the expected type.
    InvalidArgument,
    /// An absent optional value was unwrapped.
    NoneValue,
}

} // verus!
