//! The entry points that only read the contract's state.
use vstd::prelude::*;

use crate::error::{NFTCoreError, Revert};
use crate::key::{key_account, AccountHash, Key};
use crate::state::{NftState, NftView};
use crate::uint::{u256_lt, U256};

verus! {

/// What `owner_of` answers: the key that owns a minted token.
pub open spec fn owner_of_result(s: NftView, token_id: Result<U256, Revert>) -> Result<Key, Revert> {
    match token_id {
        Err(e) => Err(e),
        Ok(id) => if !(id@ < s.minted@) || !s.owners.contains_key(id) {
            Err(Revert::User(NFTCoreError::InvalidTokenID))
        } else {
            Ok(s.owners[id])
        },
    }
}

/// What `metadata` answers: the metadata a minted token was given.
pub open spec fn metadata_result(s: NftView, token_id: Result<U256, Revert>) -> Result<Seq<char>, Revert> {
    match token_id {
        Err(e) => Err(e),
        Ok(id) => if !(id@ < s.minted@) || !s.meta_data.contains_key(id) {
            Err(Revert::User(NFTCoreError::InvalidTokenID))
        } else {
            Ok(s.meta_data[id])
        },
    }
}

/// What `get_approved` answers: the operator approved for a minted token
/// that is not burnt, if any.
pub open spec fn get_approved_result(s: NftView, token_id: Result<U256, Revert>) -> Result<Option<Key>, Revert> {
    match token_id {
        Err(e) => Err(e),
        Ok(id) => if s.burnt.contains(id) {
            Err(Revert::User(NFTCoreError::PreviouslyBurntToken))
        } else if !(id@ < s.minted@) {
            Err(Revert::User(NFTCoreError::InvalidTokenID))
        } else if s.operators.contains_key(id) {
            Ok(s.operators[id])
        } else {
            Ok(None)
        },
    }
}

/// What `balance_of` answers: the number of tokens listed for an account
/// (burnt ones included), zero where nothing is listed.
pub open spec fn balance_of_result(s: NftView, token_owner: Result<Key, Revert>) -> Result<nat, Revert> {
    match token_owner {
        Err(e) => Err(e),
        Ok(k) => match key_account(k) {
            None => Err(Revert::User(NFTCoreError::InvalidKey)),
            Some(a) => if s.owned.contains_key(a) {
                Ok(s.owned[a].len())
            } else {
                Ok(0)
            },
        },
    }
}

impl NftState {
    /// The `owner_of` entry point. A burnt token still has its owner.
    pub fn owner_of(&self, token_id: Result<U256, Revert>) -> (r: Result<Key, Revert>)
        ensures
            r == owner_of_result(self@, token_id),
    {
        let id = match token_id {
            Ok(id) => id,
            Err(e) => return Err(e),
        };
        if !u256_lt(&id, &self.number_of_minted_tokens) {
            return Err(Revert::User(NFTCoreError::InvalidTokenID));
        }
        match self.token_owners.get(&id) {
            Some(k) => Ok(*k),
            None => Err(Revert::User(NFTCoreError::InvalidTokenID)),
        }
    }

    /// The `metadata` entry point.
    pub fn metadata(&self, token_id: Result<U256, Revert>) -> (r: Result<&String, Revert>)
        ensures
            match r {
                Ok(m) => metadata_result(self@, token_id) == Ok::<Seq<char>, Revert>(m@),
                Err(e) => metadata_result(self@, token_id) == Err::<Seq<char>, Revert>(e),
            },
    {
        let id = match token_id {
            Ok(id) => id,
            Err(e) => return Err(e),
        };
        if !u256_lt(&id, &self.number_of_minted_tokens) {
            return Err(Revert::User(NFTCoreError::InvalidTokenID));
        }
        match self.token_meta_data.get(&id) {
            Some(m) => Ok(m),
            None => Err(Revert::User(NFTCoreError::InvalidTokenID)),
        }
    }

    /// The `get_approved` entry point.
    pub fn get_approved(&self, token_id: Result<U256, Revert>) -> (r: Result<Option<Key>, Revert>)
        ensures
            r == get_approved_result(self@, token_id),
    {
        let id = match token_id {
            Ok(id) => id,
            Err(e) => return Err(e),
        };
        if self.burnt_tokens.contains_key(&id) {
            return Err(Revert::User(NFTCoreError::PreviouslyBurntToken));
        }
        if !u256_lt(&id, &self.number_of_minted_tokens) {
            return Err(Revert::User(NFTCoreError::InvalidTokenID));
        }
        match self.operators.get(&id) {
            Some(op) => Ok(*op),
            None => Ok(None),
        }
    }

    /// The `balance_of` entry point: the length of the account's token list.
    pub fn balance_of(&self, token_owner: Result<Key, Revert>) -> (r: Result<U256, Revert>)
        ensures
            match r {
                Ok(b) => balance_of_result(self@, token_owner) == Ok::<nat, Revert>(b@),
                Err(e) => balance_of_result(self@, token_owner) == Err::<nat, Revert>(e),
            },
    {
        let k = match token_owner {
            Ok(k) => k,
            Err(e) => return Err(e),
        };
        let a: AccountHash = match k.into_account() {
            Some(a) => a,
            None => return Err(Revert::User(NFTCoreError::InvalidKey)),
        };
        match self.owned_tokens.get(&a) {
            Some(list) => Ok(U256::from_u64(list.len() as u64)),
            None => Ok(U256::zero()),
        }
    }
}

} // verus!
