//! The `mint` entry point.
use vstd::prelude::*;

use crate::error::{NFTCoreError, Revert};
use crate::ids::{contains_id, copy_ids};
use crate::key::{key_account, AccountHash, Key};
use crate::modes::OwnershipMode;
use crate::state::{arg_error, lemma_map_values_insert, NftState, NftView};
use crate::uint::{lemma_u256_bounded, u256_add, u256_lt, u256_max, U256};

verus! {

/// The id and owner of a freshly minted token.
#[derive(Clone, Copy, Debug)]
pub struct Minted {
    pub token_id: U256,
    /// The account under which the token is listed among owned tokens.
    pub owner: AccountHash,
}

/// The key that owns a token minted now: the caller in `Minter` mode, the
/// `token_owner` argument otherwise.
pub open spec fn mint_owner_key(s: NftView, caller: AccountHash, token_owner: Result<Key, Revert>) -> Key {
    if s.ownership_mode == OwnershipMode::Minter {
        Key::Account(caller)
    } else {
        token_owner->Ok_0
    }
}

/// The account that owns a token minted now.
pub open spec fn mint_owner(s: NftView, caller: AccountHash, token_owner: Result<Key, Revert>) -> AccountHash {
    key_account(mint_owner_key(s, caller, token_owner))->Some_0
}

/// The first reason `mint` reverts, in the order the entry point checks them.
pub open spec fn mint_error(
    s: NftView,
    caller: AccountHash,
    token_owner: Result<Key, Revert>,
    token_uri: Result<String, Revert>,
    token_meta_data: Result<String, Revert>,
) -> Option<Revert> {
    let owner = mint_owner(s, caller, token_owner);
    if !s.allow_minting {
        Some(Revert::User(NFTCoreError::MintingIsPaused))
    } else if !(s.minted@ < s.total_token_supply@) {
        Some(Revert::User(NFTCoreError::TokenSupplyDepleted))
    } else if !s.public_minting && caller != s.installer {
        Some(Revert::User(NFTCoreError::InvalidAccount))
    } else if s.ownership_mode != OwnershipMode::Minter && token_owner is Err {
        arg_error(token_owner)
    } else if token_uri is Err {
        arg_error(token_uri)
    } else if token_meta_data is Err {
        arg_error(token_meta_data)
    } else if key_account(mint_owner_key(s, caller, token_owner)) is None {
        Some(Revert::User(NFTCoreError::InvalidKey))
    } else if s.owned.contains_key(owner) && s.owned[owner].contains(s.minted) {
        Some(Revert::User(NFTCoreError::FatalTokenIdDuplication))
    } else {
        None
    }
}

/// Whether a `mint` that passes every check would raise the owner's token
/// count past the largest 256-bit value (the count's `+` panics there).
pub open spec fn mint_overflows(
    s: NftView,
    caller: AccountHash,
    token_owner: Result<Key, Revert>,
    token_uri: Result<String, Revert>,
    token_meta_data: Result<String, Revert>,
) -> bool {
    let owner = mint_owner(s, caller, token_owner);
    &&& mint_error(s, caller, token_owner, token_uri, token_meta_data) is None
    &&& s.counts.contains_key(owner)
    &&& s.counts[owner] >= u256_max()
}

/// The state after a successful `mint`: token `s.minted` is recorded with
/// its owner, issuer, uri and metadata, appended to its owner's tokens, the
/// owner's count goes up by one, and so does the number of minted tokens.
pub open spec fn mint_post(
    s: NftView,
    t: NftView,
    caller: AccountHash,
    token_owner: Result<Key, Revert>,
    token_uri: Result<String, Revert>,
    token_meta_data: Result<String, Revert>,
) -> bool {
    let id = s.minted;
    let key = mint_owner_key(s, caller, token_owner);
    let owner = mint_owner(s, caller, token_owner);
    &&& t.minted@ == s.minted@ + 1
    &&& t == NftView {
        minted: t.minted,
        owners: s.owners.insert(id, key),
        issuers: s.issuers.insert(id, Key::Account(caller)),
        meta_data: s.meta_data.insert(id, token_meta_data->Ok_0@),
        uris: s.uris.insert(id, token_uri->Ok_0@),
        owned: s.owned.insert(
            owner,
            if s.owned.contains_key(owner) { s.owned[owner].push(id) } else { seq![id] },
        ),
        counts: s.counts.insert(
            owner,
            if s.counts.contains_key(owner) { s.counts[owner] + 1 } else { 1 },
        ),
        ..s
    }
}

impl NftState {
    /// The checks of the `mint` entry point, in its order: the first reason
    /// it reverts, or the key and the account that would own the token.
    pub fn mint_check(
        &self,
        caller: AccountHash,
        token_owner: &Result<Key, Revert>,
        token_uri: &Result<String, Revert>,
        token_meta_data: &Result<String, Revert>,
    ) -> (r: Result<(Key, AccountHash), Revert>)
        ensures
            r is Err <==> mint_error(self@, caller, *token_owner, *token_uri, *token_meta_data) is Some,
            r matches Err(e) ==> mint_error(self@, caller, *token_owner, *token_uri, *token_meta_data) == Some(e),
            r matches Ok((k, a)) ==> k == mint_owner_key(self@, caller, *token_owner)
                && a == mint_owner(self@, caller, *token_owner),
            r matches Ok((k, a)) ==> k == Key::Account(a)
                && (self@.ownership_mode == OwnershipMode::Minter ==> a == caller)
                && (self@.ownership_mode != OwnershipMode::Minter ==> *token_owner == Ok::<Key, Revert>(k)),
    {
        if !self.allow_minting {
            return Err(Revert::User(NFTCoreError::MintingIsPaused));
        }
        let next = self.number_of_minted_tokens;
        if !u256_lt(&next, &self.total_token_supply) {
            return Err(Revert::User(NFTCoreError::TokenSupplyDepleted));
        }
        if !self.public_minting && !caller.same(&self.installer) {
            return Err(Revert::User(NFTCoreError::InvalidAccount));
        }
        let owner_key = match self.ownership_mode {
            OwnershipMode::Minter => Key::Account(caller),
            _ => match token_owner {
                Ok(k) => *k,
                Err(e) => return Err(*e),
            },
        };
        if let Err(e) = token_uri {
            return Err(*e);
        }
        if let Err(e) = token_meta_data {
            return Err(*e);
        }
        let owner = match owner_key.into_account() {
            Some(a) => a,
            None => return Err(Revert::User(NFTCoreError::InvalidKey)),
        };
        if let Some(list) = self.owned_tokens.get(&owner) {
            if contains_id(list, &next) {
                return Err(Revert::User(NFTCoreError::FatalTokenIdDuplication));
            }
        }
        Ok((owner_key, owner))
    }

    /// The `mint` entry point: mints the next token id to the owner that the
    /// ownership mode names, with the given uri and metadata.
    pub fn mint(
        &mut self,
        caller: AccountHash,
        token_owner: Result<Key, Revert>,
        token_uri: Result<String, Revert>,
        token_meta_data: Result<String, Revert>,
    ) -> (r: Result<Minted, Revert>)
        requires
            !mint_overflows(old(self)@, caller, token_owner, token_uri, token_meta_data),
        ensures
            r is Err <==> mint_error(old(self)@, caller, token_owner, token_uri, token_meta_data) is Some,
            r matches Err(e) ==> mint_error(old(self)@, caller, token_owner, token_uri, token_meta_data)
                == Some(e) && *final(self) == *old(self),
            r matches Ok(m) ==> m.token_id == old(self).number_of_minted_tokens
                && m.owner == mint_owner(old(self)@, caller, token_owner)
                && mint_post(old(self)@, final(self)@, caller, token_owner, token_uri, token_meta_data),
            r matches Ok(m) ==> final(self)@.owners[m.token_id] == Key::Account(m.owner)
                && (old(self)@.ownership_mode == OwnershipMode::Minter ==> m.owner == caller)
                && (old(self)@.ownership_mode != OwnershipMode::Minter
                    ==> token_owner == Ok::<Key, Revert>(Key::Account(m.owner))),
    {
        let ghost s = self@;
        let ghost uri_arg = token_uri;
        let ghost meta_arg = token_meta_data;
        let (owner_key, owner) = match self.mint_check(caller, &token_owner, &token_uri, &token_meta_data) {
            Ok(p) => p,
            Err(e) => return Err(e),
        };
        let next = self.number_of_minted_tokens;
        let uri = match token_uri {
            Ok(u) => u,
            Err(e) => return Err(e),
        };
        let meta = match token_meta_data {
            Ok(m) => m,
            Err(e) => return Err(e),
        };
        let owned = match self.owned_tokens.get(&owner) {
            Some(list) => {
                let mut l = copy_ids(list);
                l.push(next);
                l
            },
            None => vec![next],
        };
        let one = U256::one();
        let count = match self.token_counts.get(&owner) {
            Some(c) => u256_add(c, &one),
            None => one,
        };
        proof { lemma_u256_bounded(self.total_token_supply); }
        let minted = u256_add(&next, &one);
        let ghost owned_view = owned@;
        self.token_owners.upsert(next, owner_key);
        self.token_issuers.upsert(next, Key::Account(caller));
        self.token_meta_data.upsert(next, meta);
        self.token_uris.upsert(next, uri);
        self.owned_tokens.upsert(owner, owned);
        self.token_counts.upsert(owner, count);
        self.number_of_minted_tokens = minted;
        proof {
            let t = self@;
            lemma_map_values_insert(old(self).token_meta_data@, next, meta, |x: String| x@);
            lemma_map_values_insert(old(self).token_uris@, next, uri, |x: String| x@);
            lemma_map_values_insert(old(self).owned_tokens@, owner, owned, |v: Vec<U256>| v@);
            lemma_map_values_insert(old(self).token_counts@, owner, count, |c: U256| c@);
            assert(owned_view =~= (if s.owned.contains_key(owner) { s.owned[owner].push(next) } else { seq![next] }));
            assert(t =~= NftView {
                minted: t.minted,
                owners: s.owners.insert(next, owner_key),
                issuers: s.issuers.insert(next, Key::Account(caller)),
                meta_data: s.meta_data.insert(next, meta_arg->Ok_0@),
                uris: s.uris.insert(next, uri_arg->Ok_0@),
                owned: s.owned.insert(owner, owned_view),
                counts: s.counts.insert(owner, if s.counts.contains_key(owner) { s.counts[owner] + 1 } else { 1 }),
                ..s
            });
        }
        Ok(Minted { token_id: next, owner })
    }
}

} // verus!
