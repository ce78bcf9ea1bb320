//! The `burn` entry point.
use vstd::prelude::*;

use crate::error::{NFTCoreError, Revert};
use crate::key::{key_account, AccountHash};
use crate::state::{lemma_map_values_insert, NftState, NftView};
use crate::uint::{u256_lt, u256_sub, U256};

verus! {

/// The first reason `burn` reverts, in the order the entry point checks them.
pub open spec fn burn_error(s: NftView, caller: AccountHash, token_id: Result<U256, Revert>) -> Option<Revert> {
    match token_id {
        Err(e) => Some(e),
        Ok(id) => if !s.owners.contains_key(id) {
            Some(Revert::User(NFTCoreError::InvalidTokenID))
        } else if key_account(s.owners[id]) is None {
            Some(Revert::User(NFTCoreError::InvalidKey))
        } else if key_account(s.owners[id])->Some_0 != caller {
            Some(Revert::User(NFTCoreError::InvalidTokenOwner))
        } else if s.burnt.contains(id) {
            Some(Revert::User(NFTCoreError::PreviouslyBurntToken))
        } else if !s.counts.contains_key(caller) || s.counts[caller] == 0 {
            Some(Revert::User(NFTCoreError::FatalTokenIdDuplication))
        } else {
            None
        },
    }
}

/// The state after a successful `burn`: the token is marked burnt and its
/// owner's count goes down by one. It keeps its owner and stays among the
/// owner's tokens.
pub open spec fn burn_view(s: NftView, caller: AccountHash, id: U256) -> NftView {
    NftView {
        burnt: s.burnt.insert(id),
        counts: s.counts.insert(caller, (s.counts[caller] - 1) as nat),
        ..s
    }
}

impl NftState {
    /// The `burn` entry point: the owner of a token marks it burnt, after
    /// which it can no longer be transferred or approved.
    pub fn burn(&mut self, caller: AccountHash, token_id: Result<U256, Revert>) -> (r: Result<(), Revert>)
        ensures
            r is Err <==> burn_error(old(self)@, caller, token_id) is Some,
            r matches Err(e) ==> burn_error(old(self)@, caller, token_id) == Some(e)
                && *final(self) == *old(self),
            r is Ok ==> final(self)@ == burn_view(old(self)@, caller, token_id->Ok_0),
    {
        let id = match token_id {
            Ok(id) => id,
            Err(e) => return Err(e),
        };
        let owner = match self.token_owners.get(&id) {
            Some(k) => match k.into_account() {
                Some(a) => {
                    if !a.same(&caller) {
                        return Err(Revert::User(NFTCoreError::InvalidTokenOwner));
                    }
                    a
                },
                None => return Err(Revert::User(NFTCoreError::InvalidKey)),
            },
            None => return Err(Revert::User(NFTCoreError::InvalidTokenID)),
        };
        if self.burnt_tokens.contains_key(&id) {
            return Err(Revert::User(NFTCoreError::PreviouslyBurntToken));
        }
        let zero = U256::zero();
        let balance = match self.token_counts.get(&owner) {
            Some(b) => {
                if u256_lt(&zero, b) {
                    u256_sub(b, &U256::one())
                } else {
                    return Err(Revert::User(NFTCoreError::FatalTokenIdDuplication));
                }
            },
            None => return Err(Revert::User(NFTCoreError::FatalTokenIdDuplication)),
        };
        self.burnt_tokens.upsert(id, ());
        self.token_counts.upsert(caller, balance);
        proof {
            lemma_map_values_insert(old(self).token_counts@, caller, balance, |c: U256| c@);
            assert(self@ =~= burn_view(old(self)@, caller, id));
        }
        Ok(())
    }
}

} // verus!
