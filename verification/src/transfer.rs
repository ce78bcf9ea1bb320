//! The `transfer` entry point.
use vstd::prelude::*;

use crate::error::{NFTCoreError, Revert};
use crate::ids::{contains_id, copy_ids, remove_first, without_first};
use crate::key::{key_account, AccountHash, Key};
use crate::modes::is_transferable;
use crate::rights::lemma_transfer_only_by_owner_or_operator;
use crate::state::{lemma_map_values_insert, NftState, NftView};
use crate::uint::{u256_add, u256_lt, u256_max, u256_sub, U256};

verus! {

/// Whether the caller is the approved operator of token `id`: `None` where
/// the approved operator is a key other than an account key, which the
/// entry point cannot unwrap.
pub open spec fn caller_is_operator(s: NftView, caller: AccountHash, id: U256) -> Option<bool> {
    if s.operators.contains_key(id) && s.operators[id] is Some {
        match key_account(s.operators[id]->Some_0) {
            Some(a) => Some(a == caller),
            None => None,
        }
    } else {
        Some(false)
    }
}

/// The owned-token lists once `id` has left the `from` account's list.
pub open spec fn owned_after_removal(s: NftView, from: AccountHash, id: U256) -> Map<AccountHash, Seq<U256>> {
    s.owned.insert(from, without_first(s.owned[from], id))
}

/// The token counts once the `from` account's count has gone down by one.
pub open spec fn counts_after_removal(s: NftView, from: AccountHash) -> Map<AccountHash, nat> {
    s.counts.insert(from, (s.counts[from] - 1) as nat)
}

/// The first reason `transfer` reverts, in the order the entry point
/// checks them.
pub open spec fn transfer_error(
    s: NftView,
    caller: AccountHash,
    token_id: Result<U256, Revert>,
    from: Result<Key, Revert>,
    to: Result<Key, Revert>,
) -> Option<Revert> {
    if !is_transferable(s.ownership_mode) {
        Some(Revert::User(NFTCoreError::InvalidOwnershipMode))
    } else if token_id is Err {
        Some(token_id->Err_0)
    } else {
        let id = token_id->Ok_0;
        if s.burnt.contains(id) {
            Some(Revert::User(NFTCoreError::PreviouslyBurntToken))
        } else if !s.owners.contains_key(id) {
            Some(Revert::User(NFTCoreError::InvalidTokenID))
        } else if key_account(s.owners[id]) is None {
            Some(Revert::User(NFTCoreError::InvalidKey))
        } else if from is Err {
            Some(from->Err_0)
        } else if key_account(from->Ok_0) is None {
            Some(Revert::User(NFTCoreError::InvalidKey))
        } else {
            let owner = key_account(s.owners[id])->Some_0;
            let f = key_account(from->Ok_0)->Some_0;
            if f != owner {
                Some(Revert::User(NFTCoreError::InvalidAccount))
            } else if caller_is_operator(s, caller, id) is None {
                Some(Revert::NoneValue)
            } else if caller != owner && !(caller_is_operator(s, caller, id)->Some_0) {
                Some(Revert::User(NFTCoreError::InvalidAccount))
            } else if to is Err {
                Some(to->Err_0)
            } else if key_account(to->Ok_0) is None {
                Some(Revert::User(NFTCoreError::InvalidKey))
            } else if !s.owned.contains_key(f) {
                Some(Revert::User(NFTCoreError::InvalidTokenID))
            } else if !s.owned[f].contains(id) {
                Some(Revert::User(NFTCoreError::InvalidTokenOwner))
            } else if !s.counts.contains_key(f) || s.counts[f] == 0 {
                Some(Revert::User(NFTCoreError::FatalTokenIdDuplication))
            } else {
                let t = key_account(to->Ok_0)->Some_0;
                let owned1 = owned_after_removal(s, f, id);
                if owned1.contains_key(t) && owned1[t].contains(id) {
                    Some(Revert::User(NFTCoreError::FatalTokenIdDuplication))
                } else {
                    None
                }
            }
        }
    }
}

/// Whether a `transfer` that passes every check would raise the receiving
/// account's count past the largest 256-bit value (the count's `+` panics
/// there).
pub open spec fn transfer_overflows(
    s: NftView,
    caller: AccountHash,
    token_id: Result<U256, Revert>,
    from: Result<Key, Revert>,
    to: Result<Key, Revert>,
) -> bool {
    let f = key_account(from->Ok_0)->Some_0;
    let t = key_account(to->Ok_0)->Some_0;
    let counts1 = counts_after_removal(s, f);
    &&& transfer_error(s, caller, token_id, from, to) is None
    &&& counts1.contains_key(t)
    &&& counts1[t] >= u256_max()
}

/// The state after a successful `transfer` of token `id` from account `f`
/// to key `to_key` (account `t`): the token is owned by `to_key`, leaves
/// `f`'s list (first occurrence) and joins the end of `t`'s, `f`'s count
/// goes down by one and then `t`'s goes up by one, and the token's approved
/// operator is cleared.
pub open spec fn transfer_view(s: NftView, id: U256, f: AccountHash, to_key: Key) -> NftView {
    let t = key_account(to_key)->Some_0;
    let owned1 = owned_after_removal(s, f, id);
    let counts1 = counts_after_removal(s, f);
    NftView {
        owners: s.owners.insert(id, to_key),
        owned: owned1.insert(t, if owned1.contains_key(t) { owned1[t].push(id) } else { seq![id] }),
        counts: counts1.insert(t, if counts1.contains_key(t) { counts1[t] + 1 } else { 1 }),
        operators: s.operators.insert(id, None),
        ..s
    }
}

/// What a `transfer` that passes its checks writes: the token, the sending
/// and receiving accounts, the receiving key, the two new token lists and
/// the sender's new count.
pub struct TransferPlan {
    pub token_id: U256,
    pub from: AccountHash,
    pub to_key: Key,
    pub to: AccountHash,
    pub from_list: Vec<U256>,
    pub to_list: Vec<U256>,
    pub from_count: U256,
}

/// The plan that `transfer_check` hands back for a transfer that passes.
pub open spec fn is_transfer_plan(
    s: NftView,
    p: TransferPlan,
    token_id: Result<U256, Revert>,
    from: Result<Key, Revert>,
    to: Result<Key, Revert>,
) -> bool {
    let id = token_id->Ok_0;
    let f = key_account(from->Ok_0)->Some_0;
    let t = key_account(to->Ok_0)->Some_0;
    let owned1 = owned_after_removal(s, f, id);
    &&& p.token_id == id
    &&& p.from == f
    &&& p.to_key == to->Ok_0
    &&& p.to == t
    &&& p.from_list@ == without_first(s.owned[f], id)
    &&& p.to_list@ == (if owned1.contains_key(t) { owned1[t].push(id) } else { seq![id] })
    &&& p.from_count@ == s.counts[f] - 1
}

impl NftState {
    /// The checks of the `transfer` entry point, in its order: the first
    /// reason it reverts, or what it writes.
    pub fn transfer_check(
        &self,
        caller: AccountHash,
        token_id: &Result<U256, Revert>,
        from: &Result<Key, Revert>,
        to: &Result<Key, Revert>,
    ) -> (r: Result<TransferPlan, Revert>)
        ensures
            r is Err <==> transfer_error(self@, caller, *token_id, *from, *to) is Some,
            r matches Err(e) ==> transfer_error(self@, caller, *token_id, *from, *to) == Some(e),
            r matches Ok(p) ==> is_transfer_plan(self@, p, *token_id, *from, *to),
            r is Ok ==> self@.owners.contains_key(token_id->Ok_0) && (key_account(self@.owners[token_id->Ok_0]) == Some(caller)
                || (self@.operators.contains_key(token_id->Ok_0)
                    && self@.operators[token_id->Ok_0] == Some(Key::Account(caller)))),
    {
        let ghost s = self@;
        if !self.ownership_mode.transferable() {
            return Err(Revert::User(NFTCoreError::InvalidOwnershipMode));
        }
        let id = match token_id {
            Ok(id) => *id,
            Err(e) => return Err(*e),
        };
        if self.burnt_tokens.contains_key(&id) {
            return Err(Revert::User(NFTCoreError::PreviouslyBurntToken));
        }
        let owner = match self.token_owners.get(&id) {
            Some(k) => match k.into_account() {
                Some(a) => a,
                None => return Err(Revert::User(NFTCoreError::InvalidKey)),
            },
            None => return Err(Revert::User(NFTCoreError::InvalidTokenID)),
        };
        let f = match from {
            Ok(k) => match k.into_account() {
                Some(a) => a,
                None => return Err(Revert::User(NFTCoreError::InvalidKey)),
            },
            Err(e) => return Err(*e),
        };
        if !f.same(&owner) {
            return Err(Revert::User(NFTCoreError::InvalidAccount));
        }
        let approved = match self.operators.get(&id) {
            Some(Some(k)) => match k.into_account() {
                Some(a) => a.same(&caller),
                None => return Err(Revert::NoneValue),
            },
            _ => false,
        };
        if !caller.same(&owner) && !approved {
            return Err(Revert::User(NFTCoreError::InvalidAccount));
        }
        let to_key = match to {
            Ok(k) => *k,
            Err(e) => return Err(*e),
        };
        let t = match to_key.into_account() {
            Some(a) => a,
            None => return Err(Revert::User(NFTCoreError::InvalidKey)),
        };
        let mut from_list = match self.owned_tokens.get(&f) {
            Some(list) => copy_ids(list),
            None => return Err(Revert::User(NFTCoreError::InvalidTokenID)),
        };
        if !remove_first(&mut from_list, &id) {
            return Err(Revert::User(NFTCoreError::InvalidTokenOwner));
        }
        let zero = U256::zero();
        let from_count = match self.token_counts.get(&f) {
            Some(b) => {
                if u256_lt(&zero, b) {
                    u256_sub(b, &U256::one())
                } else {
                    return Err(Revert::User(NFTCoreError::FatalTokenIdDuplication));
                }
            },
            None => return Err(Revert::User(NFTCoreError::FatalTokenIdDuplication)),
        };
        let ghost owned1 = owned_after_removal(s, f, id);
        let to_before = if t.same(&f) {
            Some(copy_ids(&from_list))
        } else {
            match self.owned_tokens.get(&t) {
                Some(list) => Some(copy_ids(list)),
                None => None,
            }
        };
        assert(to_before is Some <==> owned1.contains_key(t));
        assert(to_before matches Some(l) ==> l@ == owned1[t]);
        let to_list = match to_before {
            Some(mut l) => {
                if contains_id(&l, &id) {
                    return Err(Revert::User(NFTCoreError::FatalTokenIdDuplication));
                }
                l.push(id);
                l
            },
            None => vec![id],
        };
        assert(to_list@ =~= (if owned1.contains_key(t) { owned1[t].push(id) } else { seq![id] }));
        proof {
            lemma_transfer_only_by_owner_or_operator(s, caller, id, *from, *to);
        }
        Ok(TransferPlan { token_id: id, from: f, to_key, to: t, from_list, to_list, from_count })
    }

    /// The `transfer` entry point: the owner of a token, or its approved
    /// operator, moves a token that is not burnt from its owner to another
    /// account.
    pub fn transfer(
        &mut self,
        caller: AccountHash,
        token_id: Result<U256, Revert>,
        from: Result<Key, Revert>,
        to: Result<Key, Revert>,
    ) -> (r: Result<(), Revert>)
        requires
            !transfer_overflows(old(self)@, caller, token_id, from, to),
        ensures
            r is Err <==> transfer_error(old(self)@, caller, token_id, from, to) is Some,
            r matches Err(e) ==> transfer_error(old(self)@, caller, token_id, from, to) == Some(e)
                && *final(self) == *old(self),
            r is Ok ==> final(self)@ == transfer_view(
                old(self)@,
                token_id->Ok_0,
                key_account(from->Ok_0)->Some_0,
                to->Ok_0,
            ),
            r is Ok ==> old(self)@.owners.contains_key(token_id->Ok_0) && (key_account(old(self)@.owners[token_id->Ok_0]) == Some(caller)
                || (old(self)@.operators.contains_key(token_id->Ok_0)
                    && old(self)@.operators[token_id->Ok_0] == Some(Key::Account(caller)))),
    {
        let ghost s = self@;
        let TransferPlan { token_id: id, from: f, to_key, to: t, from_list, to_list, from_count } =
            match self.transfer_check(caller, &token_id, &from, &to) {
                Ok(p) => p,
                Err(e) => return Err(e),
            };
        let ghost owned1 = owned_after_removal(s, f, id);
        let one = U256::one();
        let to_count = if t.same(&f) {
            u256_add(&from_count, &one)
        } else {
            match self.token_counts.get(&t) {
                Some(b) => u256_add(b, &one),
                None => one,
            }
        };
        let ghost to_view = to_list@;
        self.token_owners.upsert(id, to_key);
        self.owned_tokens.upsert(f, from_list);
        self.owned_tokens.upsert(t, to_list);
        self.token_counts.upsert(f, from_count);
        self.token_counts.upsert(t, to_count);
        self.operators.upsert(id, None);
        proof {
            lemma_map_values_insert(old(self).owned_tokens@, f, from_list, |v: Vec<U256>| v@);
            lemma_map_values_insert(old(self).owned_tokens@.insert(f, from_list), t, to_list, |v: Vec<U256>| v@);
            lemma_map_values_insert(old(self).token_counts@, f, from_count, |c: U256| c@);
            lemma_map_values_insert(old(self).token_counts@.insert(f, from_count), t, to_count, |c: U256| c@);
            assert(to_view =~= (if owned1.contains_key(t) { owned1[t].push(id) } else { seq![id] }));
            assert(self@ =~= transfer_view(s, id, f, to_key));
        }
        Ok(())
    }
}

} // verus!
