//! What holds along any run of successful entry-point calls.
use vstd::prelude::*;

use crate::approval::{
    approve_error, approve_view, listed_tokens, operator_entries, set_approval_for_all_error, set_approval_for_all_view,
};
use crate::burn::{burn_error, burn_view};
use crate::error::{NFTCoreError, Revert};
use crate::key::{key_account, AccountHash, Key};
use crate::laws::{
    consistent, lemma_approve_keeps_consistent, lemma_burn_keeps_consistent, lemma_mint_keeps_consistent,
    lemma_read_after_approve, lemma_read_after_transfer, lemma_set_approval_for_all_keeps_consistent,
    lemma_set_variables_keeps_consistent, lemma_transfer_keeps_consistent,
};
use crate::mint::{mint_error, mint_post};
use crate::modes::is_transferable;
use crate::queries::{get_approved_result, metadata_result, owner_of_result};
use crate::state::{set_variables_error, set_variables_view, NftView};
use crate::transfer::{transfer_error, transfer_view};
use crate::uint::U256;

verus! {

/// `t` is the state after a successful call of an entry point on `s`; the
/// entry points that only read, and refused calls, leave `s` as it was.
pub open spec fn successful_step(s: NftView, t: NftView) -> bool {
    ||| t == s
    ||| exists|caller: AccountHash, allow_minting: Option<bool>| #![trigger set_variables_error(s, caller, Ok(allow_minting))]
        set_variables_error(s, caller, Ok(allow_minting)) is None
            && t == set_variables_view(s, allow_minting)
    ||| exists|caller: AccountHash, owner: Result<Key, Revert>, uri: Result<String, Revert>, meta: Result<String, Revert>| #![trigger mint_error(s, caller, owner, uri, meta)]
        mint_error(s, caller, owner, uri, meta) is None && mint_post(s, t, caller, owner, uri, meta)
    ||| exists|caller: AccountHash, id: U256| #![trigger burn_error(s, caller, Ok(id))]
        burn_error(s, caller, Ok(id)) is None && t == burn_view(s, caller, id)
    ||| exists|caller: AccountHash, id: U256, operator: Key| #![trigger approve_error(s, caller, Ok(id), Ok(operator))]
        approve_error(s, caller, Ok(id), Ok(operator)) is None
            && t == approve_view(s, id, key_account(operator)->Some_0)
    ||| exists|caller: AccountHash, approve_all: bool, operator: Key| #![trigger set_approval_for_all_view(s, caller, approve_all, operator)]
        set_approval_for_all_error(s, Ok(approve_all), Ok(operator)) is None
            && t == set_approval_for_all_view(s, caller, approve_all, operator)
    ||| exists|caller: AccountHash, id: U256, from: Key, to: Key| #![trigger transfer_error(s, caller, Ok(id), Ok(from), Ok(to))]
        transfer_error(s, caller, Ok(id), Ok(from), Ok(to)) is None
            && t == transfer_view(s, id, key_account(from)->Some_0, to)
}

/// A sequence of states, each reached from the one before by a successful
/// call.
pub open spec fn is_run(r: Seq<NftView>) -> bool {
    &&& r.len() > 0
    &&& forall|i: int| 0 <= i < r.len() - 1 ==> #[trigger] successful_step(r[i], r[i + 1])
}

/// The settings that `init` stores and no entry point changes.
pub open spec fn same_settings(s: NftView, t: NftView) -> bool {
    &&& t.installer == s.installer
    &&& t.collection_name == s.collection_name
    &&& t.collection_symbol == s.collection_symbol
    &&& t.total_token_supply == s.total_token_supply
    &&& t.ownership_mode == s.ownership_mode
    &&& t.nft_asset_type == s.nft_asset_type
    &&& t.json_schema == s.json_schema
}

/// What one successful step keeps: consistency, the settings, burnt tokens
/// and their owners, the metadata of minted tokens; and while minting is
/// off, no token is minted.
pub proof fn lemma_step(s: NftView, t: NftView)
    requires
        consistent(s),
        successful_step(s, t),
    ensures
        consistent(t),
        same_settings(s, t),
        forall|b: U256| #[trigger] s.burnt.contains(b) ==> t.burnt.contains(b) && t.owners[b] == s.owners[b],
        forall|n: U256| #[trigger] s.meta_data.contains_key(n) ==>
            t.meta_data.contains_key(n) && t.meta_data[n] == s.meta_data[n],
        !s.allow_minting ==> t.minted == s.minted,
{
    if t == s {
    } else if exists|caller: AccountHash, allow_minting: Option<bool>| #![trigger set_variables_error(s, caller, Ok(allow_minting))]
        set_variables_error(s, caller, Ok(allow_minting)) is None
            && t == set_variables_view(s, allow_minting) {
        let (caller, allow_minting) = choose|caller: AccountHash, allow_minting: Option<bool>| #![trigger set_variables_error(s, caller, Ok(allow_minting))]
            set_variables_error(s, caller, Ok(allow_minting)) is None
                && t == set_variables_view(s, allow_minting);
        lemma_set_variables_keeps_consistent(s, allow_minting);
    } else if exists|caller: AccountHash, owner: Result<Key, Revert>, uri: Result<String, Revert>, meta: Result<String, Revert>| #![trigger mint_error(s, caller, owner, uri, meta)]
        mint_error(s, caller, owner, uri, meta) is None && mint_post(s, t, caller, owner, uri, meta) {
        let (caller, owner, uri, meta) = choose|caller: AccountHash, owner: Result<Key, Revert>, uri: Result<String, Revert>, meta: Result<String, Revert>| #![trigger mint_error(s, caller, owner, uri, meta)]
            mint_error(s, caller, owner, uri, meta) is None && mint_post(s, t, caller, owner, uri, meta);
        lemma_mint_keeps_consistent(s, t, caller, owner, uri, meta);
        assert forall|b: U256| #[trigger] s.burnt.contains(b) implies t.burnt.contains(b) && t.owners[b] == s.owners[b] by {
            assert(b != s.minted);
        }
        assert forall|n: U256| #[trigger] s.meta_data.contains_key(n) implies
            t.meta_data.contains_key(n) && t.meta_data[n] == s.meta_data[n] by {
            assert(n != s.minted);
        }
    } else if exists|caller: AccountHash, id: U256| #![trigger burn_error(s, caller, Ok(id))] burn_error(s, caller, Ok(id)) is None && t == burn_view(s, caller, id) {
        let (caller, id) = choose|caller: AccountHash, id: U256| #![trigger burn_error(s, caller, Ok(id))]
            burn_error(s, caller, Ok(id)) is None && t == burn_view(s, caller, id);
        lemma_burn_keeps_consistent(s, caller, id);
    } else if exists|caller: AccountHash, id: U256, operator: Key| #![trigger approve_error(s, caller, Ok(id), Ok(operator))]
        approve_error(s, caller, Ok(id), Ok(operator)) is None
            && t == approve_view(s, id, key_account(operator)->Some_0) {
        let (caller, id, operator) = choose|caller: AccountHash, id: U256, operator: Key| #![trigger approve_error(s, caller, Ok(id), Ok(operator))]
            approve_error(s, caller, Ok(id), Ok(operator)) is None
                && t == approve_view(s, id, key_account(operator)->Some_0);
        lemma_approve_keeps_consistent(s, id, key_account(operator)->Some_0);
    } else if exists|caller: AccountHash, approve_all: bool, operator: Key| #![trigger set_approval_for_all_view(s, caller, approve_all, operator)]
        set_approval_for_all_error(s, Ok(approve_all), Ok(operator)) is None
            && t == set_approval_for_all_view(s, caller, approve_all, operator) {
        let (caller, approve_all, operator) = choose|caller: AccountHash, approve_all: bool, operator: Key| #![trigger set_approval_for_all_view(s, caller, approve_all, operator)]
            set_approval_for_all_error(s, Ok(approve_all), Ok(operator)) is None
                && t == set_approval_for_all_view(s, caller, approve_all, operator);
        lemma_set_approval_for_all_keeps_consistent(s, caller, approve_all, operator);
    } else {
        let (caller, id, from, to) = choose|caller: AccountHash, id: U256, from: Key, to: Key| #![trigger transfer_error(s, caller, Ok(id), Ok(from), Ok(to))]
            transfer_error(s, caller, Ok(id), Ok(from), Ok(to)) is None
                && t == transfer_view(s, id, key_account(from)->Some_0, to);
        lemma_transfer_keeps_consistent(s, caller, id, from, to);
        assert forall|b: U256| #[trigger] s.burnt.contains(b) implies t.burnt.contains(b) && t.owners[b] == s.owners[b] by {
            assert(b != id);
        }
    }
}

/// Along every run that starts in a consistent state (such as the state
/// `init` leaves): every state is consistent; the settings `init` stored
/// stay as they were; a burnt token stays burnt and keeps its owner; a
/// minted token keeps its metadata.
pub proof fn lemma_run(r: Seq<NftView>, k: int)
    requires
        is_run(r),
        consistent(r[0]),
        0 <= k < r.len(),
    ensures
        consistent(r[k]),
        same_settings(r[0], r[k]),
        forall|b: U256| #[trigger] r[0].burnt.contains(b) ==> r[k].burnt.contains(b) && r[k].owners[b] == r[0].owners[b],
        forall|n: U256| #[trigger] r[0].meta_data.contains_key(n) ==>
            r[k].meta_data.contains_key(n) && r[k].meta_data[n] == r[0].meta_data[n],
    decreases k,
{
    if k > 0 {
        lemma_run(r, k - 1);
        assert(successful_step(r[k - 1], r[(k - 1) + 1]));
        assert(r[(k - 1) + 1] == r[k]);
        lemma_step(r[k - 1], r[k]);
    }
}

/// Along a run that starts in a consistent state and in which minting stays
/// switched off, no token is minted.
pub proof fn lemma_paused_run_mints_nothing(r: Seq<NftView>, k: int)
    requires
        is_run(r),
        consistent(r[0]),
        forall|i: int| 0 <= i < r.len() ==> !(#[trigger] r[i]).allow_minting,
        0 <= k < r.len(),
    ensures
        r[k].minted == r[0].minted,
    decreases k,
{
    if k > 0 {
        lemma_paused_run_mints_nothing(r, k - 1);
        lemma_run(r, k - 1);
        assert(successful_step(r[k - 1], r[(k - 1) + 1]));
        assert(r[(k - 1) + 1] == r[k]);
        assert(!r[k - 1].allow_minting);
        lemma_step(r[k - 1], r[k]);
    }
}

/// Along every run that starts in a consistent state: `metadata` keeps
/// answering a minted token's metadata; a burnt token keeps answering its
/// owner through `owner_of`, and every later `transfer` of it is refused.
pub proof fn lemma_run_reads(
    r: Seq<NftView>,
    k: int,
    n: U256,
    b: U256,
    caller: AccountHash,
    from: Result<Key, Revert>,
    to: Result<Key, Revert>,
)
    requires
        is_run(r),
        consistent(r[0]),
        0 <= k < r.len(),
    ensures
        r[0].meta_data.contains_key(n) ==> metadata_result(r[k], Ok(n)) == Ok::<Seq<char>, Revert>(r[0].meta_data[n]),
        r[0].burnt.contains(b) ==> owner_of_result(r[k], Ok(b)) == Ok::<Key, Revert>(r[0].owners[b]),
        r[0].burnt.contains(b) && is_transferable(r[0].ownership_mode) ==> transfer_error(r[k], caller, Ok(b), from, to)
            == Some(Revert::User(NFTCoreError::PreviouslyBurntToken)),
{
    lemma_run(r, k);
    if r[0].meta_data.contains_key(n) {
        assert(r[k].meta_data.contains_key(n));
    }
    if r[0].burnt.contains(b) {
        assert(r[k].burnt.contains(b));
    }
}

/// `t` is the state after a successful call on `s` that leaves the approved
/// operator of token `tok` alone: any call but an `approve` or a `transfer`
/// of `tok`, or a `set_approval_for_all` by a caller whose listed tokens
/// include `tok`.
pub open spec fn step_leaving_approval(s: NftView, t: NftView, tok: U256) -> bool {
    ||| t == s
    ||| exists|caller: AccountHash, allow_minting: Option<bool>| #![trigger set_variables_error(s, caller, Ok(allow_minting))]
        set_variables_error(s, caller, Ok(allow_minting)) is None
            && t == set_variables_view(s, allow_minting)
    ||| exists|caller: AccountHash, owner: Result<Key, Revert>, uri: Result<String, Revert>, meta: Result<String, Revert>| #![trigger mint_error(s, caller, owner, uri, meta)]
        mint_error(s, caller, owner, uri, meta) is None && mint_post(s, t, caller, owner, uri, meta)
    ||| exists|caller: AccountHash, id: U256| #![trigger burn_error(s, caller, Ok(id))]
        burn_error(s, caller, Ok(id)) is None && t == burn_view(s, caller, id)
    ||| exists|caller: AccountHash, id: U256, operator: Key| #![trigger approve_error(s, caller, Ok(id), Ok(operator))]
        id != tok && approve_error(s, caller, Ok(id), Ok(operator)) is None
            && t == approve_view(s, id, key_account(operator)->Some_0)
    ||| exists|caller: AccountHash, approve_all: bool, operator: Key| #![trigger set_approval_for_all_view(s, caller, approve_all, operator)]
        !listed_tokens(s, caller).contains(tok)
            && set_approval_for_all_error(s, Ok(approve_all), Ok(operator)) is None
            && t == set_approval_for_all_view(s, caller, approve_all, operator)
    ||| exists|caller: AccountHash, id: U256, from: Key, to: Key| #![trigger transfer_error(s, caller, Ok(id), Ok(from), Ok(to))]
        id != tok && transfer_error(s, caller, Ok(id), Ok(from), Ok(to)) is None
            && t == transfer_view(s, id, key_account(from)->Some_0, to)
}

/// A run of successful calls none of which touches token `tok`'s approved
/// operator.
pub open spec fn is_run_leaving_approval(r: Seq<NftView>, tok: U256) -> bool {
    &&& r.len() > 0
    &&& forall|i: int| 0 <= i < r.len() - 1 ==> #[trigger] step_leaving_approval(r[i], r[i + 1], tok)
}

/// A call that leaves token `tok` alone keeps its approved operator, and no
/// call lowers the number of minted tokens.
pub proof fn lemma_step_leaving_approval(s: NftView, t: NftView, tok: U256)
    requires
        step_leaving_approval(s, t, tok),
    ensures
        t.operators.contains_key(tok) == s.operators.contains_key(tok),
        s.operators.contains_key(tok) ==> t.operators[tok] == s.operators[tok],
        s.minted@ <= t.minted@,
{
    if exists|caller: AccountHash, approve_all: bool, operator: Key| #![trigger set_approval_for_all_view(s, caller, approve_all, operator)]
        !listed_tokens(s, caller).contains(tok)
            && set_approval_for_all_error(s, Ok(approve_all), Ok(operator)) is None
            && t == set_approval_for_all_view(s, caller, approve_all, operator) {
        let (caller, approve_all, operator) = choose|caller: AccountHash, approve_all: bool, operator: Key| #![trigger set_approval_for_all_view(s, caller, approve_all, operator)]
            !listed_tokens(s, caller).contains(tok)
                && set_approval_for_all_error(s, Ok(approve_all), Ok(operator)) is None
                && t == set_approval_for_all_view(s, caller, approve_all, operator);
        let value = if approve_all { Some(operator) } else { None };
        assert(!operator_entries(listed_tokens(s, caller), value).contains_key(tok));
    }
}

/// Along a run of calls that leave token `tok` alone, from a state in which
/// `tok` is minted and not burnt: while `tok` is not burnt, `get_approved`
/// keeps answering what it answered at the start.
pub proof fn lemma_approval_lasts(r: Seq<NftView>, k: int, tok: U256)
    requires
        is_run_leaving_approval(r, tok),
        0 <= k < r.len(),
        tok@ < r[0].minted@,
        !r[0].burnt.contains(tok),
        !r[k].burnt.contains(tok),
    ensures
        get_approved_result(r[k], Ok(tok)) == get_approved_result(r[0], Ok(tok)),
    decreases k,
{
    lemma_run_leaving_approval(r, k, tok);
}

proof fn lemma_run_leaving_approval(r: Seq<NftView>, k: int, tok: U256)
    requires
        is_run_leaving_approval(r, tok),
        0 <= k < r.len(),
    ensures
        r[k].operators.contains_key(tok) == r[0].operators.contains_key(tok),
        r[0].operators.contains_key(tok) ==> r[k].operators[tok] == r[0].operators[tok],
        r[0].minted@ <= r[k].minted@,
    decreases k,
{
    if k > 0 {
        lemma_run_leaving_approval(r, k - 1, tok);
        assert(step_leaving_approval(r[k - 1], r[(k - 1) + 1], tok));
        assert(r[(k - 1) + 1] == r[k]);
        lemma_step_leaving_approval(r[k - 1], r[k], tok);
    }
}

/// After an `approve` of token `tok`, along any run of calls that leave
/// `tok` alone and while `tok` is not burnt, `get_approved` answers the
/// approved operator.
pub proof fn lemma_approval_lasts_after_approve(
    s: NftView,
    caller: AccountHash,
    operator: Key,
    r: Seq<NftView>,
    k: int,
    tok: U256,
)
    requires
        approve_error(s, caller, Ok(tok), Ok(operator)) is None,
        is_run_leaving_approval(r, tok),
        r[0] == approve_view(s, tok, key_account(operator)->Some_0),
        0 <= k < r.len(),
        !r[k].burnt.contains(tok),
    ensures
        get_approved_result(r[k], Ok(tok)) == Ok::<Option<Key>, Revert>(Some(operator)),
{
    lemma_read_after_approve(s, caller, tok, operator);
    lemma_approval_lasts(r, k, tok);
}

/// After a `transfer` of token `tok` in a consistent state, along any run of
/// calls that leave `tok` alone and while `tok` is not burnt, `get_approved`
/// answers no operator.
pub proof fn lemma_cleared_approval_lasts_after_transfer(
    s: NftView,
    caller: AccountHash,
    from: Key,
    to: Key,
    r: Seq<NftView>,
    k: int,
    tok: U256,
)
    requires
        consistent(s),
        transfer_error(s, caller, Ok(tok), Ok(from), Ok(to)) is None,
        is_run_leaving_approval(r, tok),
        r[0] == transfer_view(s, tok, key_account(from)->Some_0, to),
        0 <= k < r.len(),
        !r[k].burnt.contains(tok),
    ensures
        get_approved_result(r[k], Ok(tok)) == Ok::<Option<Key>, Revert>(None),
{
    lemma_read_after_transfer(s, caller, tok, from, to);
    assert(s.owners.contains_key(tok));
    lemma_approval_lasts(r, k, tok);
}

} // verus!
