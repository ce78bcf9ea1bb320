//! Who may do what with a token, and what a successful call gives: the
//! laws that tie each entry point's outcome to its arguments.
use vstd::prelude::*;

use crate::approval::{approve_error, approve_view};
use crate::burn::{burn_error, burn_view};
use crate::error::Revert;
use crate::key::{key_account, AccountHash, Key};
use crate::laws::{consistent, count_of, lemma_transfer_keeps_consistent, lists, live_tokens, owns};
use crate::mint::{mint_error, mint_post};
use crate::modes::{is_transferable, OwnershipMode};
use crate::queries::{get_approved_result, owner_of_result};
use crate::state::{set_variables_error, set_variables_view, NftView};
use crate::transfer::{transfer_error, transfer_view};
use crate::uint::U256;

verus! {

/// A successful `mint` gives the new token to the `token_owner` argument in
/// every ownership mode but `Minter`, and to the caller in `Minter` mode:
/// `owner_of` the new id answers that key, the id is listed for its account,
/// and that account's count goes up by one.
pub proof fn lemma_mint_gives_token_to_named_owner(
    s: NftView,
    t: NftView,
    caller: AccountHash,
    token_owner: Key,
    uri: String,
    meta: String,
)
    requires
        mint_error(s, caller, Ok(token_owner), Ok(uri), Ok(meta)) is None,
        mint_post(s, t, caller, Ok(token_owner), Ok(uri), Ok(meta)),
    ensures
        ({
            let k = if s.ownership_mode == OwnershipMode::Minter { Key::Account(caller) } else { token_owner };
            &&& key_account(k) is Some
            &&& owner_of_result(t, Ok(s.minted)) == Ok::<Key, Revert>(k)
            &&& lists(t, key_account(k)->Some_0, s.minted)
            &&& count_of(t, key_account(k)->Some_0) == count_of(s, key_account(k)->Some_0) + 1
            &&& forall|a: AccountHash| a != key_account(k)->Some_0 ==> #[trigger] count_of(t, a) == count_of(s, a)
            &&& t.minted@ == s.minted@ + 1
            &&& t.meta_data[s.minted] == meta@
            &&& t.uris[s.minted] == uri@
            &&& t.issuers[s.minted] == Key::Account(caller)
            &&& t.owners.remove(s.minted) == s.owners.remove(s.minted)
            &&& t.burnt == s.burnt
            &&& t.operators == s.operators
        }),
{
    let k = if s.ownership_mode == OwnershipMode::Minter { Key::Account(caller) } else { token_owner };
    let a = key_account(k)->Some_0;
    let l = t.owned[a];
    if s.owned.contains_key(a) {
        assert(l[l.len() - 1] == s.minted);
    } else {
        assert(l[0] == s.minted);
    }
    assert(t.owners.remove(s.minted) =~= s.owners.remove(s.minted));
}

/// In a consistent state `mint` succeeds exactly when minting is on, the
/// supply is not used up, the caller may mint (anyone where minting is
/// public, else only the installer), and, outside `Minter` mode, the
/// `token_owner` argument names an account.
pub proof fn lemma_mint_succeeds_when(s: NftView, caller: AccountHash, token_owner: Key, uri: String, meta: String)
    requires
        consistent(s),
    ensures
        mint_error(s, caller, Ok(token_owner), Ok(uri), Ok(meta)) is None <==> {
            &&& s.allow_minting
            &&& s.minted@ < s.total_token_supply@
            &&& (s.public_minting || caller == s.installer)
            &&& (s.ownership_mode != OwnershipMode::Minter ==> key_account(token_owner) is Some)
        },
{
    let k = if s.ownership_mode == OwnershipMode::Minter { Key::Account(caller) } else { token_owner };
    if key_account(k) is Some {
        let a = key_account(k)->Some_0;
        if s.owned.contains_key(a) && s.owned[a].contains(s.minted) {
            assert(lists(s, a, s.minted));
            assert(owns(s, a, s.minted));
        }
    }
}

/// Only the owner of a token, or the account approved as its operator, can
/// transfer it, and only out of the owner's account.
pub proof fn lemma_transfer_only_by_owner_or_operator(
    s: NftView,
    caller: AccountHash,
    id: U256,
    from: Result<Key, Revert>,
    to: Result<Key, Revert>,
)
    requires
        transfer_error(s, caller, Ok(id), from, to) is None,
    ensures
        s.owners.contains_key(id),
        !s.burnt.contains(id),
        from is Ok,
        key_account(from->Ok_0) is Some,
        key_account(from->Ok_0) == key_account(s.owners[id]),
        key_account(s.owners[id]) == Some(caller)
            || (s.operators.contains_key(id) && s.operators[id] == Some(Key::Account(caller))),
{
    if key_account(s.owners[id]) != Some(caller) {
        let k = s.operators[id]->Some_0;
        assert(key_account(k) == Some(caller));
        assert(k == Key::Account(caller));
    }
}

/// A successful `transfer` in a consistent state moves exactly the one
/// token: `owner_of` answers the receiving key, the token is listed for the
/// receiver and no longer for the sender, the sender's count goes down by
/// one and the receiver's up by one (a transfer to oneself changes no
/// count), and no other owner, count or burnt token changes.
pub proof fn lemma_transfer_moves_one_token(s: NftView, caller: AccountHash, id: U256, from: Key, to: Key)
    requires
        consistent(s),
        transfer_error(s, caller, Ok(id), Ok(from), Ok(to)) is None,
    ensures
        ({
            let f = key_account(from)->Some_0;
            let r = key_account(to)->Some_0;
            let t = transfer_view(s, id, f, to);
            &&& owner_of_result(t, Ok(id)) == Ok::<Key, Revert>(to)
            &&& to == Key::Account(r)
            &&& lists(t, r, id)
            &&& f != r ==> !lists(t, f, id)
            &&& f != r ==> count_of(t, f) + 1 == count_of(s, f) && count_of(t, r) == count_of(s, r) + 1
            &&& f == r ==> count_of(t, f) == count_of(s, f)
            &&& forall|a: AccountHash| a != f && a != r ==> #[trigger] count_of(t, a) == count_of(s, a)
            &&& t.owners.remove(id) == s.owners.remove(id)
            &&& t.burnt == s.burnt
        }),
{
    let f = key_account(from)->Some_0;
    let r = key_account(to)->Some_0;
    let t = transfer_view(s, id, f, to);
    assert(to == Key::Account(r));
    lemma_transfer_keeps_consistent(s, caller, id, from, to);
    assert(owns(t, r, id));
    assert(lists(t, r, id));
    if f != r {
        assert(!owns(t, f, id));
        assert(!lists(t, f, id));
    }
    assert(t.owners.remove(id) =~= s.owners.remove(id));
}

/// In a consistent state a token can be burnt by its owner, and by nobody
/// else, as long as it is not burnt yet, whatever operator it has been
/// approved for. Burning marks it burnt and lowers the owner's count by one;
/// its owner and operator stay as they were.
pub proof fn lemma_owner_can_burn(s: NftView, caller: AccountHash, id: U256)
    requires
        consistent(s),
    ensures
        burn_error(s, caller, Ok(id)) is None <==> owns(s, caller, id) && !s.burnt.contains(id),
        burn_error(s, caller, Ok(id)) is None ==> ({
            let t = burn_view(s, caller, id);
            &&& t.burnt == s.burnt.insert(id)
            &&& count_of(t, caller) + 1 == count_of(s, caller)
            &&& t.owners == s.owners
            &&& t.operators == s.operators
        }),
{
    if s.owners.contains_key(id) && key_account(s.owners[id]) == Some(caller) {
        assert(s.owners[id] == Key::Account(caller));
    }
    if owns(s, caller, id) && !s.burnt.contains(id) {
        assert(lists(s, caller, id));
        vstd::seq_lib::seq_to_set_is_finite(s.owned[caller]);
        assert(live_tokens(s, caller).contains(id));
        assert(s.counts[caller] > 0);
    }
}

/// In a consistent state where tokens may change hands, the owner of a
/// token that is not burnt can approve any account but itself, whatever
/// operator the token had before, and nobody else can approve anything;
/// `get_approved` then answers the new operator.
pub proof fn lemma_owner_can_approve(s: NftView, caller: AccountHash, id: U256, operator: Key)
    requires
        consistent(s),
        is_transferable(s.ownership_mode),
    ensures
        approve_error(s, caller, Ok(id), Ok(operator)) is None <==> {
            &&& owns(s, caller, id)
            &&& !s.burnt.contains(id)
            &&& key_account(operator) is Some
            &&& key_account(operator) != Some(caller)
        },
        approve_error(s, caller, Ok(id), Ok(operator)) is None ==> get_approved_result(
            approve_view(s, id, key_account(operator)->Some_0),
            Ok(id),
        ) == Ok::<Option<Key>, Revert>(Some(operator)),
        approve_error(s, caller, Ok(id), Ok(operator)) is None ==> ({
            let t = approve_view(s, id, key_account(operator)->Some_0);
            &&& forall|u: U256| u != id ==> #[trigger] get_approved_result(t, Ok(u)) == get_approved_result(s, Ok(u))
            &&& (NftView { operators: s.operators, ..t }) == s
        }),
{
    if s.owners.contains_key(id) && key_account(s.owners[id]) == Some(caller) {
        assert(s.owners[id] == Key::Account(caller));
    }
    if key_account(operator) is Some {
        assert(operator == Key::Account(key_account(operator)->Some_0));
    }
}

/// `set_variables` succeeds exactly when the installer calls it with an
/// argument that could be read. With a value it sets `allow_minting` to
/// that value and leaves the rest of the state as it was; with no value it
/// changes nothing.
pub proof fn lemma_set_variables_changes_only_minting(
    s: NftView,
    caller: AccountHash,
    allow_minting: Result<Option<bool>, Revert>,
)
    ensures
        set_variables_error(s, caller, allow_minting) is None <==> caller == s.installer && allow_minting is Ok,
        allow_minting == Ok::<Option<bool>, Revert>(None) ==> set_variables_view(s, None) == s,
        allow_minting matches Ok(Some(b)) ==> ({
            let t = set_variables_view(s, Some(b));
            &&& t.allow_minting == b
            &&& (NftView { allow_minting: s.allow_minting, ..t }) == s
        }),
{
}

} // verus!
