//! What holds of the contract across its entry points: the consistency of
//! its state, which every entry point keeps, and what a read gives back
//! after a write.
use vstd::prelude::*;

use crate::burn::{burn_error, burn_view};
use crate::approval::{approve_error, approve_view, listed_tokens, set_approval_for_all_view};
use crate::error::{NFTCoreError, Revert};
use crate::ids::{lemma_without_first_unique, without_first};
use crate::key::{key_account, AccountHash, Key};
use crate::modes::is_transferable;
use crate::mint::{mint_error, mint_overflows, mint_owner, mint_owner_key, mint_post};
use crate::queries::{balance_of_result, get_approved_result, metadata_result, owner_of_result};
use crate::state::{init_error, init_view, set_variables_view, InitArgs, NftView};
use crate::transfer::{caller_is_operator, owned_after_removal, transfer_error, transfer_overflows, transfer_view};
use crate::uint::{lemma_u256_bounded, lemma_u256_injective, u256_max, U256};

verus! {

/// The token `t` is owned by the account `a`.
pub open spec fn owns(v: NftView, a: AccountHash, t: U256) -> bool {
    v.owners.contains_key(t) && v.owners[t] == Key::Account(a)
}

/// The token `t` is listed among the tokens of the account `a`.
pub open spec fn lists(v: NftView, a: AccountHash, t: U256) -> bool {
    v.owned.contains_key(a) && v.owned[a].contains(t)
}

/// The tokens listed for `a` that are not burnt.
pub open spec fn live_tokens(v: NftView, a: AccountHash) -> Set<U256> {
    v.owned[a].to_set().difference(v.burnt)
}

/// The state that the entry points keep: ids `0 .. minted` are exactly the
/// minted tokens, each with an owning account, an issuer, a uri and
/// metadata; no more than the supply is minted; an account's list holds
/// exactly the tokens it owns, each once; and its count is the number of
/// those that are not burnt.
pub open spec fn consistent(v: NftView) -> bool {
    &&& v.minted@ <= v.total_token_supply@
    &&& forall|t: U256| #[trigger] v.owners.contains_key(t) <==> t@ < v.minted@
    &&& forall|t: U256| #[trigger] v.issuers.contains_key(t) <==> t@ < v.minted@
    &&& forall|t: U256| #[trigger] v.meta_data.contains_key(t) <==> t@ < v.minted@
    &&& forall|t: U256| #[trigger] v.uris.contains_key(t) <==> t@ < v.minted@
    &&& forall|t: U256| v.owners.contains_key(t) ==> #[trigger] key_account(v.owners[t]) is Some
    &&& forall|t: U256| #[trigger] v.burnt.contains(t) ==> t@ < v.minted@
    &&& forall|a: AccountHash| #[trigger] v.owned.contains_key(a) ==> v.owned[a].no_duplicates()
    &&& forall|a: AccountHash, t: U256|
        #![trigger lists(v, a, t)]
        #![trigger owns(v, a, t)]
        lists(v, a, t) <==> owns(v, a, t)
    &&& forall|a: AccountHash| #[trigger] v.counts.contains_key(a) <==> v.owned.contains_key(a)
    &&& forall|a: AccountHash| #[trigger] v.owned.contains_key(a) ==> v.counts[a] == live_tokens(v, a).len()
}

/// The state right after `init` is consistent.
pub proof fn lemma_init_consistent(
    already_initialized: bool,
    installer: Result<AccountHash, Revert>,
    caller: AccountHash,
    args: InitArgs,
)
    requires
        init_error(already_initialized, installer, caller, args) is None,
    ensures
        consistent(init_view(installer->Ok_0, args)),
{
}

/// A finite set of token ids all below `n` has at most `n` members.
pub proof fn lemma_ids_below(s: Set<U256>, n: nat)
    requires
        s.finite(),
        forall|t: U256| #[trigger] s.contains(t) ==> t@ < n,
    ensures
        s.len() <= n,
{
    let f = |t: U256| t@ as int;
    assert(vstd::relations::injective_on(f, s)) by {
        assert forall|x: U256, y: U256| s.contains(x) && s.contains(y) && #[trigger] f(x) == #[trigger] f(y) implies x == y by {
            lemma_u256_injective(x, y);
        }
    }
    let image = s.map(f);
    vstd::set_lib::lemma_map_size(s, image, f);
    vstd::set_lib::lemma_int_range(0, n as int);
    assert(image.subset_of(vstd::set_lib::set_int_range(0, n as int)));
    vstd::set_lib::lemma_len_subset(image, vstd::set_lib::set_int_range(0, n as int));
}

/// In a consistent state an account's count is at most the number of tokens
/// minted, and less than that where some minted token is not listed for it.
pub proof fn lemma_count_bound(v: NftView, a: AccountHash)
    requires
        consistent(v),
        v.owned.contains_key(a),
    ensures
        v.counts[a] <= v.minted@,
        (exists|t: U256| t@ < v.minted@ && !lists(v, a, t)) ==> v.counts[a] < v.minted@,
{
    let live = live_tokens(v, a);
    let listed = v.owned[a].to_set();
    assert(listed.finite()) by { vstd::seq_lib::seq_to_set_is_finite(v.owned[a]); }
    assert(live.subset_of(listed));
    vstd::set_lib::lemma_len_subset(live, listed);
    assert forall|t: U256| #[trigger] listed.contains(t) implies t@ < v.minted@ by {
        assert(lists(v, a, t));
        assert(owns(v, a, t));
    }
    lemma_ids_below(listed, v.minted@);
    if exists|t: U256| t@ < v.minted@ && !lists(v, a, t) {
        let x = choose|t: U256| t@ < v.minted@ && !lists(v, a, t);
        assert(!listed.contains(x));
        assert forall|t: U256| #[trigger] listed.insert(x).contains(t) implies t@ < v.minted@ by {
            if t != x {
                assert(lists(v, a, t));
                assert(owns(v, a, t));
            }
        }
        lemma_ids_below(listed.insert(x), v.minted@);
    }
}

/// In a consistent state, `mint` never reaches an overflowing count.
pub proof fn lemma_mint_never_overflows(
    s: NftView,
    caller: AccountHash,
    token_owner: Result<Key, Revert>,
    token_uri: Result<String, Revert>,
    token_meta_data: Result<String, Revert>,
)
    requires
        consistent(s),
    ensures
        !mint_overflows(s, caller, token_owner, token_uri, token_meta_data),
{
    let owner = mint_owner(s, caller, token_owner);
    if mint_error(s, caller, token_owner, token_uri, token_meta_data) is None && s.counts.contains_key(owner) {
        lemma_count_bound(s, owner);
        lemma_u256_bounded(s.total_token_supply);
    }
}

/// `mint` keeps the state consistent.
pub proof fn lemma_mint_keeps_consistent(
    s: NftView,
    t: NftView,
    caller: AccountHash,
    token_owner: Result<Key, Revert>,
    token_uri: Result<String, Revert>,
    token_meta_data: Result<String, Revert>,
)
    requires
        consistent(s),
        mint_error(s, caller, token_owner, token_uri, token_meta_data) is None,
        mint_post(s, t, caller, token_owner, token_uri, token_meta_data),
    ensures
        consistent(t),
{
    let n = s.minted;
    let key = mint_owner_key(s, caller, token_owner);
    let o = mint_owner(s, caller, token_owner);
    assert(key == Key::Account(o));
    assert forall|u: U256| #[trigger] u.view() < t.minted@ <==> (u@ < s.minted@ || u == n) by {
        if u@ == s.minted@ {
            lemma_u256_injective(u, n);
        }
    }
    assert(!s.owners.contains_key(n));
    // The new token is listed nowhere yet.
    assert forall|a: AccountHash| !lists(s, a, n) by {
        if lists(s, a, n) {
            assert(owns(s, a, n));
        }
    }
    let old_list = if s.owned.contains_key(o) { s.owned[o] } else { Seq::<U256>::empty() };
    let new_list = t.owned[o];
    assert(new_list == old_list.push(n));
    assert(!old_list.contains(n)) by {
        if s.owned.contains_key(o) {
            assert(!lists(s, o, n));
        }
    }
    assert forall|a: AccountHash, u: U256| #![trigger lists(t, a, u)] #![trigger owns(t, a, u)]
        lists(t, a, u) <==> owns(t, a, u) by {
        if a == o {
            if u == n {
                assert(new_list[new_list.len() - 1] == n);
            } else {
                assert(lists(t, a, u) <==> lists(s, a, u)) by {
                    if new_list.contains(u) {
                        let i = choose|i: int| 0 <= i < new_list.len() && new_list[i] == u;
                        assert(old_list[i] == u);
                    }
                    if old_list.contains(u) {
                        let i = choose|i: int| 0 <= i < old_list.len() && old_list[i] == u;
                        assert(new_list[i] == u);
                    }
                }
                assert(owns(t, a, u) <==> owns(s, a, u));
            }
        } else {
            assert(lists(t, a, u) <==> lists(s, a, u));
            if u == n {
                assert(!owns(t, a, u));
            } else {
                assert(owns(t, a, u) <==> owns(s, a, u));
            }
        }
    }
    assert forall|a: AccountHash| #[trigger] t.owned.contains_key(a) implies t.owned[a].no_duplicates() by {
        if a == o {
            assert forall|i: int, j: int| 0 <= i < new_list.len() && 0 <= j < new_list.len() && i != j
                implies new_list[i] != new_list[j] by {
                if i < old_list.len() && j < old_list.len() {
                    assert(old_list.no_duplicates());
                } else if i < old_list.len() {
                    assert(old_list.contains(old_list[i]));
                } else {
                    assert(old_list.contains(old_list[j]));
                }
            }
        }
    }
    assert(!s.burnt.contains(n));
    assert forall|a: AccountHash| #[trigger] t.owned.contains_key(a) implies t.counts[a] == live_tokens(t, a).len() by {
        if a == o {
            vstd::seq_lib::seq_to_set_is_finite(old_list);
            old_list.lemma_push_to_set_commute(n);
            let live_before = old_list.to_set().difference(s.burnt);
            assert(live_tokens(t, o) =~= live_before.insert(n));
            assert(!live_before.contains(n));
            if s.owned.contains_key(o) {
                assert(live_before == live_tokens(s, o));
            } else {
                assert(live_before =~= Set::<U256>::empty());
            }
        } else {
            assert(live_tokens(t, a) == live_tokens(s, a));
        }
    }
    lemma_u256_bounded(s.total_token_supply);
}

/// `burn` keeps the state consistent.
pub proof fn lemma_burn_keeps_consistent(s: NftView, caller: AccountHash, id: U256)
    requires
        consistent(s),
        burn_error(s, caller, Ok(id)) is None,
    ensures
        consistent(burn_view(s, caller, id)),
{
    let t = burn_view(s, caller, id);
    assert(owns(s, caller, id));
    assert(lists(s, caller, id));
    assert forall|a: AccountHash, u: U256| #![trigger lists(t, a, u)] #![trigger owns(t, a, u)]
        lists(t, a, u) <==> owns(t, a, u) by {
        assert(lists(t, a, u) == lists(s, a, u));
        assert(owns(t, a, u) == owns(s, a, u));
    }
    assert forall|a: AccountHash| #[trigger] t.owned.contains_key(a) implies t.counts[a] == live_tokens(t, a).len() by {
        vstd::seq_lib::seq_to_set_is_finite(s.owned[a]);
        if a == caller {
            assert(live_tokens(t, a) =~= live_tokens(s, a).remove(id));
            assert(s.owned[a].contains(id));
            assert(live_tokens(s, a).contains(id));
        } else {
            if s.owned[a].contains(id) {
                assert(lists(s, a, id));
                assert(owns(s, a, id));
            }
            assert(live_tokens(t, a) =~= live_tokens(s, a));
        }
    }
}

/// In a consistent state, `transfer` never reaches an overflowing count.
pub proof fn lemma_transfer_never_overflows(
    s: NftView,
    caller: AccountHash,
    token_id: Result<U256, Revert>,
    from: Result<Key, Revert>,
    to: Result<Key, Revert>,
)
    requires
        consistent(s),
    ensures
        !transfer_overflows(s, caller, token_id, from, to),
{
    if transfer_error(s, caller, token_id, from, to) is None {
        let id = token_id->Ok_0;
        let f = key_account(from->Ok_0)->Some_0;
        let t = key_account(to->Ok_0)->Some_0;
        lemma_u256_bounded(s.total_token_supply);
        assert(lists(s, f, id));
        assert(owns(s, f, id));
        lemma_count_bound(s, f);
        if t != f && s.counts.contains_key(t) {
            assert(!owns(s, t, id));
            assert(!lists(s, t, id));
            lemma_count_bound(s, t);
        }
    }
}

/// `transfer` keeps the state consistent.
pub proof fn lemma_transfer_keeps_consistent(
    s: NftView,
    caller: AccountHash,
    id: U256,
    from: Key,
    to: Key,
)
    requires
        consistent(s),
        transfer_error(s, caller, Ok(id), Ok(from), Ok(to)) is None,
    ensures
        consistent(transfer_view(s, id, key_account(from)->Some_0, to)),
{
    let f = key_account(from)->Some_0;
    let b = key_account(to)->Some_0;
    assert(to == Key::Account(b));
    let v = transfer_view(s, id, f, to);
    assert(lists(s, f, id));
    assert(owns(s, f, id));
    let old_from = s.owned[f];
    lemma_without_first_unique(old_from, id);
    let new_from = without_first(old_from, id);
    let owned1 = owned_after_removal(s, f, id);
    let before_to = if owned1.contains_key(b) { owned1[b] } else { Seq::<U256>::empty() };
    let new_to = v.owned[b];
    assert(new_to == before_to.push(id));
    assert(!before_to.contains(id)) by {
        if b != f && s.owned.contains_key(b) {
            if s.owned[b].contains(id) {
                assert(lists(s, b, id));
                assert(owns(s, b, id));
            }
        }
    }
    assert(before_to.no_duplicates());
    assert forall|u: U256| #[trigger] new_to.contains(u) <==> (before_to.contains(u) || u == id) by {
        if new_to.contains(u) {
            let i = choose|i: int| 0 <= i < new_to.len() && new_to[i] == u;
            if i < before_to.len() {
                assert(before_to[i] == u);
            }
        }
        if before_to.contains(u) {
            let i = choose|i: int| 0 <= i < before_to.len() && before_to[i] == u;
            assert(new_to[i] == u);
        }
        if u == id {
            assert(new_to[new_to.len() - 1] == u);
        }
    }
    assert forall|a: AccountHash, u: U256| #![trigger lists(v, a, u)] #![trigger owns(v, a, u)]
        lists(v, a, u) <==> owns(v, a, u) by {
        if a == b {
            if u != id {
                if b == f {
                    assert(new_from.contains(u) <==> old_from.contains(u));
                }
                assert(lists(v, a, u) <==> lists(s, a, u));
                assert(owns(v, a, u) <==> owns(s, a, u));
            }
        } else if a == f {
            assert(v.owned[a] == new_from);
            if u != id {
                assert(lists(v, a, u) <==> lists(s, a, u));
                assert(owns(v, a, u) <==> owns(s, a, u));
            }
        } else {
            assert(lists(v, a, u) <==> lists(s, a, u));
            if u == id {
                assert(!owns(s, a, u));
                assert(!lists(s, a, u));
            } else {
                assert(owns(v, a, u) <==> owns(s, a, u));
            }
        }
    }
    assert forall|a: AccountHash| #[trigger] v.owned.contains_key(a) implies v.owned[a].no_duplicates() by {
        if a == b {
            assert forall|i: int, j: int| 0 <= i < new_to.len() && 0 <= j < new_to.len() && i != j
                implies new_to[i] != new_to[j] by {
                if i < before_to.len() && j < before_to.len() {
                } else if i < before_to.len() {
                    assert(before_to.contains(before_to[i]));
                } else {
                    assert(before_to.contains(before_to[j]));
                }
            }
        }
    }
    assert(!s.burnt.contains(id));
    vstd::seq_lib::seq_to_set_is_finite(old_from);
    assert(live_tokens(s, f).contains(id));
    let live_from = new_from.to_set().difference(s.burnt);
    assert(live_from =~= live_tokens(s, f).remove(id));
    assert forall|a: AccountHash| #[trigger] v.owned.contains_key(a) implies v.counts[a] == live_tokens(v, a).len() by {
        if a == b {
            vstd::seq_lib::seq_to_set_is_finite(before_to);
            before_to.lemma_push_to_set_commute(id);
            let live_before = before_to.to_set().difference(s.burnt);
            assert(live_tokens(v, b) =~= live_before.insert(id));
            assert(!live_before.contains(id));
            if b == f {
                assert(live_before == live_from);
            } else if s.owned.contains_key(b) {
                assert(live_before == live_tokens(s, b));
            } else {
                assert(live_before =~= Set::<U256>::empty());
            }
        } else if a == f {
            assert(live_tokens(v, f) == live_from);
        } else {
            assert(live_tokens(v, a) == live_tokens(s, a));
        }
    }
}

/// `approve` keeps the state consistent.
pub proof fn lemma_approve_keeps_consistent(s: NftView, id: U256, operator: AccountHash)
    requires
        consistent(s),
    ensures
        consistent(approve_view(s, id, operator)),
{
    let v = approve_view(s, id, operator);
    assert forall|a: AccountHash, u: U256| #![trigger lists(v, a, u)] #![trigger owns(v, a, u)]
        lists(v, a, u) <==> owns(v, a, u) by {
        assert(lists(v, a, u) == lists(s, a, u));
        assert(owns(v, a, u) == owns(s, a, u));
    }
    assert forall|a: AccountHash| #[trigger] v.owned.contains_key(a) implies v.counts[a] == live_tokens(v, a).len() by {
        assert(live_tokens(v, a) == live_tokens(s, a));
    }
}

/// `set_approval_for_all` keeps the state consistent.
pub proof fn lemma_set_approval_for_all_keeps_consistent(
    s: NftView,
    caller: AccountHash,
    approve_all: bool,
    operator: Key,
)
    requires
        consistent(s),
    ensures
        consistent(set_approval_for_all_view(s, caller, approve_all, operator)),
{
    let v = set_approval_for_all_view(s, caller, approve_all, operator);
    assert forall|a: AccountHash, u: U256| #![trigger lists(v, a, u)] #![trigger owns(v, a, u)]
        lists(v, a, u) <==> owns(v, a, u) by {
        assert(lists(v, a, u) == lists(s, a, u));
        assert(owns(v, a, u) == owns(s, a, u));
    }
    assert forall|a: AccountHash| #[trigger] v.owned.contains_key(a) implies v.counts[a] == live_tokens(v, a).len() by {
        assert(live_tokens(v, a) == live_tokens(s, a));
    }
}

/// After `set_approval_for_all`, every token the caller owns has the
/// operator as its approved operator, or, when `approve_all` is false, none;
/// every other token keeps its approved operator.
pub proof fn lemma_read_after_set_approval_for_all(
    s: NftView,
    caller: AccountHash,
    approve_all: bool,
    operator: Key,
    t: U256,
)
    requires
        consistent(s),
        !s.burnt.contains(t),
        t@ < s.minted@,
    ensures
        owns(s, caller, t) ==> get_approved_result(set_approval_for_all_view(s, caller, approve_all, operator), Ok(t))
            == Ok::<Option<Key>, Revert>(if approve_all { Some(operator) } else { None }),
        !owns(s, caller, t) ==> get_approved_result(set_approval_for_all_view(s, caller, approve_all, operator), Ok(t))
            == get_approved_result(s, Ok(t)),
{
    assert(lists(s, caller, t) == owns(s, caller, t));
    assert(listed_tokens(s, caller).contains(t) == lists(s, caller, t));
}

/// `set_variables` keeps the state consistent.
pub proof fn lemma_set_variables_keeps_consistent(s: NftView, allow_minting: Option<bool>)
    requires
        consistent(s),
    ensures
        consistent(set_variables_view(s, allow_minting)),
{
    let v = set_variables_view(s, allow_minting);
    assert forall|a: AccountHash, u: U256| #![trigger lists(v, a, u)] #![trigger owns(v, a, u)]
        lists(v, a, u) <==> owns(v, a, u) by {
        assert(lists(v, a, u) == lists(s, a, u));
        assert(owns(v, a, u) == owns(s, a, u));
    }
    assert forall|a: AccountHash| #[trigger] v.owned.contains_key(a) implies v.counts[a] == live_tokens(v, a).len() by {
        assert(live_tokens(v, a) == live_tokens(s, a));
    }
}

/// The tokens an account owns, burnt ones included.
pub open spec fn owned_tokens_of(v: NftView, a: AccountHash) -> Set<U256> {
    Set::new(|u: U256| owns(v, a, u))
}

/// In a consistent state, `balance_of` answers the number of tokens the
/// account owns, burnt ones included.
pub proof fn lemma_balance_counts_owned_tokens(s: NftView, a: AccountHash)
    requires
        consistent(s),
    ensures
        balance_of_result(s, Ok(Key::Account(a))) == Ok::<nat, Revert>(owned_tokens_of(s, a).len()),
{
    if s.owned.contains_key(a) {
        assert forall|u: U256| #[trigger] owned_tokens_of(s, a).contains(u) == s.owned[a].to_set().contains(u) by {
            assert(lists(s, a, u) == owns(s, a, u));
        }
        assert(owned_tokens_of(s, a) =~= s.owned[a].to_set());
        s.owned[a].unique_seq_to_set();
    } else {
        assert forall|u: U256| !#[trigger] owned_tokens_of(s, a).contains(u) by {
            assert(lists(s, a, u) == owns(s, a, u));
        }
        assert(owned_tokens_of(s, a) =~= Set::<U256>::empty());
    }
}

/// After a `mint`, `owner_of` the new token answers the key it was minted
/// to, and `metadata` answers its metadata.
pub proof fn lemma_read_after_mint(
    s: NftView,
    t: NftView,
    caller: AccountHash,
    token_owner: Result<Key, Revert>,
    token_uri: Result<String, Revert>,
    token_meta_data: Result<String, Revert>,
)
    requires
        mint_error(s, caller, token_owner, token_uri, token_meta_data) is None,
        mint_post(s, t, caller, token_owner, token_uri, token_meta_data),
    ensures
        owner_of_result(t, Ok(s.minted)) == Ok::<Key, Revert>(mint_owner_key(s, caller, token_owner)),
        metadata_result(t, Ok(s.minted)) == Ok::<Seq<char>, Revert>(token_meta_data->Ok_0@),
{
}

/// After a `transfer`, `owner_of` the token answers the receiving key, and
/// the token has no approved operator.
pub proof fn lemma_read_after_transfer(s: NftView, caller: AccountHash, id: U256, from: Key, to: Key)
    requires
        consistent(s),
        transfer_error(s, caller, Ok(id), Ok(from), Ok(to)) is None,
    ensures
        owner_of_result(transfer_view(s, id, key_account(from)->Some_0, to), Ok(id)) == Ok::<Key, Revert>(to),
        get_approved_result(transfer_view(s, id, key_account(from)->Some_0, to), Ok(id))
            == Ok::<Option<Key>, Revert>(None),
{
}

/// After an `approve`, `get_approved` answers the approved operator.
pub proof fn lemma_read_after_approve(s: NftView, caller: AccountHash, id: U256, operator: Key)
    requires
        approve_error(s, caller, Ok(id), Ok(operator)) is None,
    ensures
        get_approved_result(approve_view(s, id, key_account(operator)->Some_0), Ok(id))
            == Ok::<Option<Key>, Revert>(Some(operator)),
{
    assert(operator == Key::Account(key_account(operator)->Some_0));
}

/// After an `approve`, the approved operator may transfer the token from its
/// owner to any account.
pub proof fn lemma_operator_may_transfer(s: NftView, caller: AccountHash, id: U256, operator: Key, receiver: AccountHash)
    requires
        consistent(s),
        approve_error(s, caller, Ok(id), Ok(operator)) is None,
    ensures
        transfer_error(
            approve_view(s, id, key_account(operator)->Some_0),
            key_account(operator)->Some_0,
            Ok(id),
            Ok(Key::Account(caller)),
            Ok(Key::Account(receiver)),
        ) is None,
{
    let op = key_account(operator)->Some_0;
    let v = approve_view(s, id, op);
    assert(owns(s, caller, id));
    assert(lists(s, caller, id));
    lemma_approve_keeps_consistent(s, id, op);
    assert(lists(v, caller, id));
    vstd::seq_lib::seq_to_set_is_finite(v.owned[caller]);
    assert(live_tokens(v, caller).contains(id));
    assert(v.counts[caller] > 0);
    lemma_without_first_unique(v.owned[caller], id);
    if receiver != caller && v.owned.contains_key(receiver) && v.owned[receiver].contains(id) {
        assert(lists(v, receiver, id));
        assert(owns(v, receiver, id));
    }
}

/// A burnt token can be neither burnt again, transferred, nor approved, and
/// `get_approved` refuses it; `owner_of` still answers its owner.
pub proof fn lemma_burnt_token_is_frozen(
    s: NftView,
    caller: AccountHash,
    id: U256,
    other: AccountHash,
    from: Result<Key, Revert>,
    to: Result<Key, Revert>,
    operator: Result<Key, Revert>,
)
    requires
        consistent(s),
        burn_error(s, caller, Ok(id)) is None,
        is_transferable(s.ownership_mode),
    ensures
        burn_error(burn_view(s, caller, id), caller, Ok(id))
            == Some(Revert::User(NFTCoreError::PreviouslyBurntToken)),
        transfer_error(burn_view(s, caller, id), other, Ok(id), from, to)
            == Some(Revert::User(NFTCoreError::PreviouslyBurntToken)),
        approve_error(burn_view(s, caller, id), caller, Ok(id), operator)
            == Some(Revert::User(NFTCoreError::PreviouslyBurntToken)),
        get_approved_result(burn_view(s, caller, id), Ok(id))
            == Err::<Option<Key>, Revert>(Revert::User(NFTCoreError::PreviouslyBurntToken)),
        owner_of_result(burn_view(s, caller, id), Ok(id)) == owner_of_result(s, Ok(id)),
        owner_of_result(s, Ok(id)) == Ok::<Key, Revert>(Key::Account(caller)),
{
    assert(s.owners[id] == Key::Account(caller));
}

/// The owner of a token that is not burnt may transfer it to any account,
/// as long as the token's approved operator, if any, is an account.
pub proof fn lemma_owner_may_transfer(s: NftView, owner: AccountHash, id: U256, receiver: AccountHash)
    requires
        consistent(s),
        is_transferable(s.ownership_mode),
        owns(s, owner, id),
        !s.burnt.contains(id),
        caller_is_operator(s, owner, id) is Some,
    ensures
        transfer_error(s, owner, Ok(id), Ok(Key::Account(owner)), Ok(Key::Account(receiver))) is None,
{
    assert(lists(s, owner, id));
    vstd::seq_lib::seq_to_set_is_finite(s.owned[owner]);
    assert(live_tokens(s, owner).contains(id));
    lemma_without_first_unique(s.owned[owner], id);
    if receiver != owner && s.owned.contains_key(receiver) && s.owned[receiver].contains(id) {
        assert(lists(s, receiver, id));
        assert(owns(s, receiver, id));
    }
}

/// Once the installer switches minting off, `mint` is refused.
pub proof fn lemma_paused_minting_is_refused(
    s: NftView,
    caller: AccountHash,
    token_owner: Result<Key, Revert>,
    token_uri: Result<String, Revert>,
    token_meta_data: Result<String, Revert>,
)
    ensures
        mint_error(set_variables_view(s, Some(false)), caller, token_owner, token_uri, token_meta_data)
            == Some(Revert::User(NFTCoreError::MintingIsPaused)),
{
}

/// An account's stored count, zero where none is stored.
pub open spec fn count_of(v: NftView, a: AccountHash) -> nat {
    if v.counts.contains_key(a) {
        v.counts[a]
    } else {
        0
    }
}

/// The set of tokens listed for an account, empty where nothing is listed.
pub open spec fn listed_set(v: NftView, a: AccountHash) -> Set<U256> {
    if v.owned.contains_key(a) {
        v.owned[a].to_set()
    } else {
        Set::empty()
    }
}

/// The lists after the transfer of `id` from `f` to `b` in a consistent state.
proof fn lemma_transfer_lists(s: NftView, caller: AccountHash, id: U256, f: AccountHash, b: AccountHash)
    requires
        consistent(s),
        transfer_error(s, caller, Ok(id), Ok(Key::Account(f)), Ok(Key::Account(b))) is None,
    ensures
        ({
            let v = transfer_view(s, id, f, Key::Account(b));
            &&& listed_set(v, b) == listed_set(s, b).insert(id)
            &&& f != b ==> listed_set(v, f) == listed_set(s, f).remove(id)
            &&& forall|x: AccountHash| x != f && x != b ==> #[trigger] listed_set(v, x) == listed_set(s, x)
            &&& f == b ==> count_of(v, f) == count_of(s, f)
            &&& f != b ==> count_of(v, f) == count_of(s, f) - 1 && count_of(v, b) == count_of(s, b) + 1
            &&& forall|x: AccountHash| x != f && x != b ==> #[trigger] count_of(v, x) == count_of(s, x)
            &&& v.owners == s.owners.insert(id, Key::Account(b))
            &&& v.operators[id] == None::<Key>
            &&& s.owners[id] == Key::Account(f)
        }),
{
    let v = transfer_view(s, id, f, Key::Account(b));
    assert(lists(s, f, id));
    assert(owns(s, f, id));
    let l = s.owned[f];
    lemma_without_first_unique(l, id);
    let nl = without_first(l, id);
    let owned1 = owned_after_removal(s, f, id);
    let before = if owned1.contains_key(b) { owned1[b] } else { Seq::<U256>::empty() };
    before.lemma_push_to_set_commute(id);
    assert(v.owned[b] == before.push(id));
    if f == b {
        assert(before.to_set() == l.to_set().remove(id));
        assert(listed_set(v, b) =~= listed_set(s, b).insert(id));
    } else {
        if s.owned.contains_key(b) {
            assert(before == s.owned[b]);
        } else {
            assert(before.to_set() =~= Set::<U256>::empty());
        }
        assert(listed_set(v, b) =~= listed_set(s, b).insert(id));
        assert(listed_set(v, f) == nl.to_set());
    }
    assert(v.owners == s.owners.insert(id, Key::Account(b)));
}

/// A transfer of a token from `a` to `b` by its owner `a`, followed by the
/// transfer back from `b` to `a` by `b`: the second one succeeds, and
/// afterwards the token's owner, both accounts' counts and the sets of
/// tokens listed for them are as before, and the token has no approved
/// operator.
pub proof fn lemma_transfer_round_trip(s: NftView, id: U256, a: AccountHash, b: AccountHash)
    requires
        consistent(s),
        transfer_error(s, a, Ok(id), Ok(Key::Account(a)), Ok(Key::Account(b))) is None,
    ensures
        transfer_error(transfer_view(s, id, a, Key::Account(b)), b, Ok(id), Ok(Key::Account(b)), Ok(Key::Account(a))) is None,
        ({
            let s2 = transfer_view(transfer_view(s, id, a, Key::Account(b)), id, b, Key::Account(a));
            &&& s2.owners == s.owners
            &&& count_of(s2, a) == count_of(s, a)
            &&& count_of(s2, b) == count_of(s, b)
            &&& listed_set(s2, a) == listed_set(s, a)
            &&& listed_set(s2, b) == listed_set(s, b)
            &&& s2.operators[id] == None::<Key>
        }),
{
    let s1 = transfer_view(s, id, a, Key::Account(b));
    lemma_transfer_keeps_consistent(s, a, id, Key::Account(a), Key::Account(b));
    lemma_transfer_lists(s, a, id, a, b);
    assert(owns(s1, b, id));
    lemma_owner_may_transfer(s1, b, id, a);
    lemma_transfer_lists(s1, b, id, b, a);
    let s2 = transfer_view(s1, id, b, Key::Account(a));
    assert(s2.owners =~= s.owners);
    assert(lists(s, a, id));
    if a != b {
        assert(!owns(s, b, id));
        assert(!listed_set(s, b).contains(id)) by {
            if s.owned.contains_key(b) && s.owned[b].contains(id) {
                assert(lists(s, b, id));
            }
        }
        assert(listed_set(s, a).contains(id));
        assert(listed_set(s2, b) =~= listed_set(s, b));
        assert(listed_set(s2, a) =~= listed_set(s, a));
        assert(s.counts.contains_key(a));
        assert(count_of(s, a) > 0) by {
            vstd::seq_lib::seq_to_set_is_finite(s.owned[a]);
            assert(live_tokens(s, a).contains(id));
        }
    } else {
        assert(listed_set(s, a).contains(id));
        assert(listed_set(s2, a) =~= listed_set(s, a));
    }
}

} // verus!
