//! The entry points that approve operators to transfer tokens.
use vstd::prelude::*;

use crate::error::{NFTCoreError, Revert};
use crate::ids::copy_ids;
use crate::key::{key_account, AccountHash, Key};
use crate::modes::is_transferable;
use crate::state::{NftState, NftView};
use crate::uint::{u256_lt, U256};

verus! {

/// The first reason `approve` reverts, in the order the entry point checks them.
pub open spec fn approve_error(
    s: NftView,
    caller: AccountHash,
    token_id: Result<U256, Revert>,
    operator: Result<Key, Revert>,
) -> Option<Revert> {
    if !is_transferable(s.ownership_mode) {
        Some(Revert::User(NFTCoreError::InvalidOwnershipMode))
    } else {
        match token_id {
            Err(e) => Some(e),
            Ok(id) => if !(id@ < s.minted@) {
                Some(Revert::User(NFTCoreError::InvalidTokenID))
            } else if !s.owners.contains_key(id) {
                Some(Revert::User(NFTCoreError::InvalidAccountHash))
            } else if key_account(s.owners[id]) is None {
                Some(Revert::User(NFTCoreError::InvalidKey))
            } else if key_account(s.owners[id])->Some_0 != caller {
                Some(Revert::User(NFTCoreError::InvalidAccountHash))
            } else if s.burnt.contains(id) {
                Some(Revert::User(NFTCoreError::PreviouslyBurntToken))
            } else {
                match operator {
                    Err(e) => Some(e),
                    Ok(k) => if key_account(k) is None {
                        Some(Revert::User(NFTCoreError::InvalidKey))
                    } else if key_account(k)->Some_0 == caller {
                        Some(Revert::User(NFTCoreError::InvalidAccount))
                    } else {
                        None
                    },
                }
            },
        }
    }
}

/// The state after a successful `approve`: the operator's account is the
/// token's approved operator.
pub open spec fn approve_view(s: NftView, id: U256, operator: AccountHash) -> NftView {
    NftView { operators: s.operators.insert(id, Some(Key::Account(operator))), ..s }
}

/// The first reason `set_approval_for_all` reverts, in the order the entry
/// point checks them.
pub open spec fn set_approval_for_all_error(
    s: NftView,
    approve_all: Result<bool, Revert>,
    operator: Result<Key, Revert>,
) -> Option<Revert> {
    if !is_transferable(s.ownership_mode) {
        Some(Revert::User(NFTCoreError::InvalidOwnershipMode))
    } else if approve_all is Err {
        Some(approve_all->Err_0)
    } else if operator is Err {
        Some(operator->Err_0)
    } else {
        None
    }
}

/// The tokens listed for an account, none where nothing is listed.
pub open spec fn listed_tokens(s: NftView, a: AccountHash) -> Seq<U256> {
    if s.owned.contains_key(a) {
        s.owned[a]
    } else {
        Seq::empty()
    }
}

/// The operator entries that `value` takes for each of `tokens`.
pub open spec fn operator_entries(tokens: Seq<U256>, value: Option<Key>) -> Map<U256, Option<Key>> {
    Map::new(|t: U256| tokens.contains(t), |t: U256| value)
}

/// The state after a successful `set_approval_for_all`: every token listed
/// for the caller gets the operator as its approved operator, or, when
/// `approve_all` is false, loses its approved operator.
pub open spec fn set_approval_for_all_view(s: NftView, caller: AccountHash, approve_all: bool, operator: Key) -> NftView {
    NftView {
        operators: s.operators.union_prefer_right(
            operator_entries(listed_tokens(s, caller), if approve_all { Some(operator) } else { None }),
        ),
        ..s
    }
}

impl NftState {
    /// The `approve` entry point: the owner of a token that is not burnt
    /// names another account that may transfer it.
    pub fn approve(
        &mut self,
        caller: AccountHash,
        token_id: Result<U256, Revert>,
        operator: Result<Key, Revert>,
    ) -> (r: Result<(), Revert>)
        ensures
            r is Err <==> approve_error(old(self)@, caller, token_id, operator) is Some,
            r matches Err(e) ==> approve_error(old(self)@, caller, token_id, operator) == Some(e)
                && *final(self) == *old(self),
            r is Ok ==> final(self)@ == approve_view(
                old(self)@,
                token_id->Ok_0,
                key_account(operator->Ok_0)->Some_0,
            ),
    {
        if !self.ownership_mode.transferable() {
            return Err(Revert::User(NFTCoreError::InvalidOwnershipMode));
        }
        let id = match token_id {
            Ok(id) => id,
            Err(e) => return Err(e),
        };
        if !u256_lt(&id, &self.number_of_minted_tokens) {
            return Err(Revert::User(NFTCoreError::InvalidTokenID));
        }
        let owner = match self.token_owners.get(&id) {
            Some(k) => match k.into_account() {
                Some(a) => a,
                None => return Err(Revert::User(NFTCoreError::InvalidKey)),
            },
            None => return Err(Revert::User(NFTCoreError::InvalidAccountHash)),
        };
        if !owner.same(&caller) {
            return Err(Revert::User(NFTCoreError::InvalidAccountHash));
        }
        if self.burnt_tokens.contains_key(&id) {
            return Err(Revert::User(NFTCoreError::PreviouslyBurntToken));
        }
        let op = match operator {
            Ok(k) => match k.into_account() {
                Some(a) => a,
                None => return Err(Revert::User(NFTCoreError::InvalidKey)),
            },
            Err(e) => return Err(e),
        };
        if owner.same(&op) {
            return Err(Revert::User(NFTCoreError::InvalidAccount));
        }
        self.operators.upsert(id, Some(Key::Account(op)));
        assert(self@ =~= approve_view(old(self)@, id, op));
        Ok(())
    }

    /// The `set_approval_for_all` entry point: approves the operator for, or
    /// withdraws the approval of, every token listed for the caller.
    pub fn set_approval_for_all(
        &mut self,
        caller: AccountHash,
        approve_all: Result<bool, Revert>,
        operator: Result<Key, Revert>,
    ) -> (r: Result<(), Revert>)
        ensures
            r is Err <==> set_approval_for_all_error(old(self)@, approve_all, operator) is Some,
            r matches Err(e) ==> set_approval_for_all_error(old(self)@, approve_all, operator) == Some(e)
                && *final(self) == *old(self),
            r is Ok ==> final(self)@ == set_approval_for_all_view(
                old(self)@,
                caller,
                approve_all->Ok_0,
                operator->Ok_0,
            ),
    {
        if !self.ownership_mode.transferable() {
            return Err(Revert::User(NFTCoreError::InvalidOwnershipMode));
        }
        let approve_all = match approve_all {
            Ok(b) => b,
            Err(e) => return Err(e),
        };
        let operator = match operator {
            Ok(k) => k,
            Err(e) => return Err(e),
        };
        let tokens = match self.owned_tokens.get(&caller) {
            Some(list) => copy_ids(list),
            None => Vec::new(),
        };
        let value = if approve_all { Some(operator) } else { None };
        let ghost s = old(self)@;
        let ghost list = listed_tokens(s, caller);
        assert(tokens@ =~= list);
        assert(s.operators =~= s.operators.union_prefer_right(operator_entries(list.take(0), value)));
        let mut i: usize = 0;
        while i < tokens.len()
            invariant
                i <= tokens@.len(),
                tokens@ == list,
                self@ == (NftView {
                    operators: s.operators.union_prefer_right(operator_entries(list.take(i as int), value)),
                    ..s
                }),
            decreases tokens@.len() - i,
        {
            let t = tokens[i];
            let ghost before = self.operators@;
            self.operators.upsert(t, value);
            proof {
                assert(list.take(i + 1) =~= list.take(i as int).push(t));
                assert forall|u: U256| #[trigger] list.take(i + 1).contains(u) <==> (list.take(i as int).contains(u) || u == t) by {
                    if list.take(i as int).contains(u) {
                        let k = choose|k: int| 0 <= k < i && list.take(i as int)[k] == u;
                        assert(list.take(i + 1)[k] == u);
                    }
                    if u == t {
                        assert(list.take(i + 1)[i as int] == u);
                    }
                }
                assert(self.operators@ =~= s.operators.union_prefer_right(operator_entries(list.take(i + 1), value)));
            }
            i += 1;
            assert(self@ =~= NftView {
                operators: s.operators.union_prefer_right(operator_entries(list.take(i as int), value)),
                ..s
            });
        }
        assert(list.take(i as int) =~= list);
        Ok(())
    }
}

} // verus!
