use nft_core::error::{NFTCoreError, Revert};
use nft_core::key::{AccountHash, Key};
use nft_core::modes::{NFTAssetType, OwnershipMode};
use nft_core::state::{InitArgs, NftState};
use nft_core::uint::U256;

fn acct(b: u8) -> AccountHash {
    AccountHash { bytes: [b; 32] }
}

fn id(n: u64) -> U256 {
    U256::from_u64(n)
}

fn user(e: NFTCoreError) -> Revert {
    Revert::User(e)
}

fn args(supply: u64, allow: bool, public: bool, mode: u8) -> InitArgs {
    InitArgs {
        collection_name: Ok("Apes".to_string()),
        collection_symbol: Ok("APE".to_string()),
        total_token_supply: Ok(id(supply)),
        allow_minting: Ok(allow),
        public_minting: Ok(public),
        ownership_mode: Ok(mode),
        nft_asset_type: Ok(1),
        json_schema: Ok("{}".to_string()),
    }
}

const INSTALLER: u8 = 7;

fn fresh(supply: u64, public: bool, mode: u8) -> NftState {
    NftState::init(false, Ok(acct(INSTALLER)), acct(INSTALLER), args(supply, true, public, mode)).unwrap()
}

fn mint_to(s: &mut NftState, caller: u8, owner: u8) -> Result<nft_core::mint::Minted, Revert> {
    s.mint(acct(caller), Ok(Key::Account(acct(owner))), Ok("uri".to_string()), Ok("meta".to_string()))
}

fn balance(s: &NftState, a: u8) -> U256 {
    s.balance_of(Ok(Key::Account(acct(a)))).unwrap()
}

#[test]
fn init_sets_up_an_empty_collection() {
    let s = fresh(10, false, 2);
    assert_eq!(s.collection_name, "Apes");
    assert_eq!(s.collection_symbol, "APE");
    assert_eq!(s.total_token_supply, id(10));
    assert_eq!(s.ownership_mode, OwnershipMode::TransferableUnchecked);
    assert_eq!(s.nft_asset_type, NFTAssetType::Digital);
    assert!(s.allow_minting);
    assert!(!s.public_minting);
    assert_eq!(s.number_of_minted_tokens, id(0));
    assert_eq!(s.owner_of(Ok(id(0))).unwrap_err(), user(NFTCoreError::InvalidTokenID));
    assert_eq!(balance(&s, 1), id(0));
}

#[test]
fn init_refuses_a_second_call_and_other_callers() {
    let r = NftState::init(true, Ok(acct(INSTALLER)), acct(INSTALLER), args(10, true, true, 0));
    assert_eq!(r.err(), Some(user(NFTCoreError::ContractAlreadyInitialized)));
    let r = NftState::init(false, Ok(acct(INSTALLER)), acct(1), args(10, true, true, 0));
    assert_eq!(r.err(), Some(user(NFTCoreError::InvalidAccount)));
    let r = NftState::init(false, Err(user(NFTCoreError::MissingInstaller)), acct(1), args(10, true, true, 0));
    assert_eq!(r.err(), Some(user(NFTCoreError::MissingInstaller)));
}

#[test]
fn init_decodes_modes_in_order() {
    let r = NftState::init(false, Ok(acct(INSTALLER)), acct(INSTALLER), args(10, true, true, 9));
    assert_eq!(r.err(), Some(user(NFTCoreError::InvalidOwnershipMode)));
    let mut a = args(10, true, true, 3);
    a.nft_asset_type = Ok(5);
    let r = NftState::init(false, Ok(acct(INSTALLER)), acct(INSTALLER), a);
    assert_eq!(r.err(), Some(user(NFTCoreError::InvalidNftAssetType)));
    let mut a = args(10, true, true, 9);
    a.collection_symbol = Err(user(NFTCoreError::MissingCollectionSymbol));
    let r = NftState::init(false, Ok(acct(INSTALLER)), acct(INSTALLER), a);
    assert_eq!(r.err(), Some(user(NFTCoreError::MissingCollectionSymbol)));
    let mut a = args(10, true, true, 3);
    a.json_schema = Err(user(NFTCoreError::MissingJsonSchema));
    let r = NftState::init(false, Ok(acct(INSTALLER)), acct(INSTALLER), a);
    assert_eq!(r.err(), Some(user(NFTCoreError::MissingJsonSchema)));
}

#[test]
fn set_variables_only_for_the_installer() {
    let mut s = fresh(10, true, 2);
    assert_eq!(s.set_variables(acct(1), Ok(Some(false))), Err(user(NFTCoreError::InvalidAccount)));
    assert!(s.allow_minting);
    assert_eq!(s.set_variables(acct(INSTALLER), Ok(None)), Ok(()));
    assert!(s.allow_minting);
    assert_eq!(s.set_variables(acct(INSTALLER), Ok(Some(false))), Ok(()));
    assert!(!s.allow_minting);
    assert_eq!(mint_to(&mut s, INSTALLER, 1).err(), Some(user(NFTCoreError::MintingIsPaused)));
    assert_eq!(s.set_variables(acct(INSTALLER), Err(user(NFTCoreError::MissingAllowMinting))), Err(user(NFTCoreError::MissingAllowMinting)));
}

#[test]
fn mint_gives_consecutive_ids_and_counts() {
    let mut s = fresh(10, true, 2);
    let m0 = mint_to(&mut s, 1, 2).unwrap();
    assert_eq!(m0.token_id, id(0));
    assert_eq!(m0.owner.bytes, [2; 32]);
    let m1 = mint_to(&mut s, 3, 2).unwrap();
    assert_eq!(m1.token_id, id(1));
    assert_eq!(s.number_of_minted_tokens, id(2));
    assert!(matches!(s.owner_of(Ok(id(1))).unwrap(), Key::Account(a) if a.bytes == [2; 32]));
    assert_eq!(balance(&s, 2), id(2));
    assert_eq!(balance(&s, 1), id(0));
    assert_eq!(s.metadata(Ok(id(0))).unwrap(), "meta");
    assert_eq!(s.token_owners.get(&id(1)).is_some(), true);
    assert!(matches!(s.token_issuers.get(&id(1)), Some(Key::Account(a)) if a.bytes == [3; 32]));
    assert_eq!(s.owned_tokens.get(&acct(2)).unwrap().clone(), vec![id(0), id(1)]);
}

#[test]
fn mint_in_minter_mode_gives_the_token_to_the_caller() {
    let mut s = fresh(10, true, 0);
    let m = s.mint(acct(4), Err(Revert::MissingArgument), Ok("u".to_string()), Ok("m".to_string())).unwrap();
    assert_eq!(m.owner.bytes, [4; 32]);
    assert!(matches!(s.owner_of(Ok(id(0))).unwrap(), Key::Account(a) if a.bytes == [4; 32]));
}

#[test]
fn mint_needs_the_token_owner_outside_minter_mode() {
    let mut s = fresh(10, true, 1);
    let r = s.mint(acct(4), Err(Revert::MissingArgument), Ok("u".to_string()), Ok("m".to_string()));
    assert_eq!(r.err(), Some(Revert::MissingArgument));
    assert_eq!(s.number_of_minted_tokens, id(0));
}

#[test]
fn mint_stops_at_the_supply() {
    let mut s = fresh(2, true, 2);
    mint_to(&mut s, 1, 1).unwrap();
    mint_to(&mut s, 1, 1).unwrap();
    assert_eq!(mint_to(&mut s, 1, 1).err(), Some(user(NFTCoreError::TokenSupplyDepleted)));
    assert_eq!(s.number_of_minted_tokens, id(2));
}

#[test]
fn private_minting_is_for_the_installer() {
    let mut s = fresh(5, false, 2);
    assert_eq!(mint_to(&mut s, 1, 1).err(), Some(user(NFTCoreError::InvalidAccount)));
    assert!(mint_to(&mut s, INSTALLER, 1).is_ok());
}

#[test]
fn mint_refuses_a_non_account_owner_and_keeps_the_state() {
    let mut s = fresh(5, true, 2);
    let r = s.mint(acct(1), Ok(Key::Hash([3; 32])), Ok("u".to_string()), Ok("m".to_string()));
    assert_eq!(r.err(), Some(user(NFTCoreError::InvalidKey)));
    assert_eq!(s.number_of_minted_tokens, id(0));
    assert!(s.token_owners.get(&id(0)).is_none());
    let r = s.mint(acct(1), Ok(Key::Account(acct(1))), Err(user(NFTCoreError::MissingTokenURI)), Ok("m".to_string()));
    assert_eq!(r.err(), Some(user(NFTCoreError::MissingTokenURI)));
    let r = s.mint(acct(1), Ok(Key::Account(acct(1))), Ok("u".to_string()), Err(user(NFTCoreError::InvalidTokenMetaData)));
    assert_eq!(r.err(), Some(user(NFTCoreError::InvalidTokenMetaData)));
}

#[test]
fn mint_refuses_an_id_already_listed() {
    let mut s = fresh(5, true, 2);
    s.owned_tokens.upsert(acct(1), vec![id(0)]);
    assert_eq!(mint_to(&mut s, 1, 1).err(), Some(user(NFTCoreError::FatalTokenIdDuplication)));
}

#[test]
fn burn_marks_the_token_and_lowers_the_count() {
    let mut s = fresh(5, true, 2);
    mint_to(&mut s, 1, 1).unwrap();
    mint_to(&mut s, 1, 1).unwrap();
    assert_eq!(s.burn(acct(2), Ok(id(0))), Err(user(NFTCoreError::InvalidTokenOwner)));
    assert_eq!(s.burn(acct(1), Ok(id(0))), Ok(()));
    // The count goes down; the balance still lists the burnt token.
    assert_eq!(s.token_counts.get(&acct(1)).copied(), Some(id(1)));
    assert_eq!(balance(&s, 1), id(2));
    assert_eq!(s.burn(acct(1), Ok(id(0))), Err(user(NFTCoreError::PreviouslyBurntToken)));
    assert_eq!(s.burn(acct(1), Ok(id(4))), Err(user(NFTCoreError::InvalidTokenID)));
    // A burnt token keeps its owner.
    assert!(matches!(s.owner_of(Ok(id(0))).unwrap(), Key::Account(a) if a.bytes == [1; 32]));
    assert_eq!(s.get_approved(Ok(id(0))), Err(user(NFTCoreError::PreviouslyBurntToken)));
    assert_eq!(s.transfer(acct(1), Ok(id(0)), Ok(Key::Account(acct(1))), Ok(Key::Account(acct(2)))), Err(user(NFTCoreError::PreviouslyBurntToken)));
    assert_eq!(s.approve(acct(1), Ok(id(0)), Ok(Key::Account(acct(2)))), Err(user(NFTCoreError::PreviouslyBurntToken)));
}

#[test]
fn burn_without_a_count_is_fatal() {
    let mut s = fresh(5, true, 2);
    s.token_owners.upsert(id(0), Key::Account(acct(1)));
    assert_eq!(s.burn(acct(1), Ok(id(0))), Err(user(NFTCoreError::FatalTokenIdDuplication)));
    s.token_counts.upsert(acct(1), id(0));
    assert_eq!(s.burn(acct(1), Ok(id(0))), Err(user(NFTCoreError::FatalTokenIdDuplication)));
    s.token_owners.upsert(id(1), Key::Hash([0; 32]));
    assert_eq!(s.burn(acct(1), Ok(id(1))), Err(user(NFTCoreError::InvalidKey)));
}

#[test]
fn transfer_moves_the_token() {
    let mut s = fresh(5, true, 2);
    mint_to(&mut s, 1, 1).unwrap();
    mint_to(&mut s, 1, 1).unwrap();
    let r = s.transfer(acct(1), Ok(id(0)), Ok(Key::Account(acct(1))), Ok(Key::Account(acct(2))));
    assert_eq!(r, Ok(()));
    assert!(matches!(s.owner_of(Ok(id(0))).unwrap(), Key::Account(a) if a.bytes == [2; 32]));
    assert_eq!(balance(&s, 1), id(1));
    assert_eq!(balance(&s, 2), id(1));
    assert_eq!(s.owned_tokens.get(&acct(1)).unwrap().clone(), vec![id(1)]);
    assert_eq!(s.owned_tokens.get(&acct(2)).unwrap().clone(), vec![id(0)]);
    assert_eq!(s.get_approved(Ok(id(0))), Ok(None));
}

#[test]
fn transfer_to_oneself_keeps_the_balance() {
    let mut s = fresh(5, true, 3);
    mint_to(&mut s, 1, 1).unwrap();
    mint_to(&mut s, 1, 1).unwrap();
    assert_eq!(s.transfer(acct(1), Ok(id(0)), Ok(Key::Account(acct(1))), Ok(Key::Account(acct(1)))), Ok(()));
    assert_eq!(balance(&s, 1), id(2));
    assert_eq!(s.owned_tokens.get(&acct(1)).unwrap().clone(), vec![id(1), id(0)]);
}

#[test]
fn transfer_checks() {
    let mut s = fresh(5, true, 2);
    mint_to(&mut s, 1, 1).unwrap();
    let acc = |b: u8| Ok(Key::Account(acct(b)));
    assert_eq!(s.transfer(acct(1), Ok(id(3)), acc(1), acc(2)), Err(user(NFTCoreError::InvalidTokenID)));
    assert_eq!(s.transfer(acct(1), Ok(id(0)), acc(2), acc(2)), Err(user(NFTCoreError::InvalidAccount)));
    assert_eq!(s.transfer(acct(2), Ok(id(0)), acc(1), acc(2)), Err(user(NFTCoreError::InvalidAccount)));
    assert_eq!(s.transfer(acct(1), Ok(id(0)), Ok(Key::Hash([1; 32])), acc(2)), Err(user(NFTCoreError::InvalidKey)));
    assert_eq!(s.transfer(acct(1), Ok(id(0)), acc(1), Ok(Key::EraInfo(4))), Err(user(NFTCoreError::InvalidKey)));
    assert_eq!(s.transfer(acct(1), Ok(id(0)), acc(1), Err(user(NFTCoreError::MissingAccountHash))), Err(user(NFTCoreError::MissingAccountHash)));
    assert_eq!(s.transfer(acct(1), Err(user(NFTCoreError::MissingTokenID)), acc(1), acc(2)), Err(user(NFTCoreError::MissingTokenID)));
    assert!(matches!(s.owner_of(Ok(id(0))).unwrap(), Key::Account(a) if a.bytes == [1; 32]));
    // Listing or count out of step with the owners.
    s.token_owners.upsert(id(1), Key::Account(acct(1)));
    assert_eq!(s.transfer(acct(1), Ok(id(1)), acc(1), acc(2)), Err(user(NFTCoreError::InvalidTokenOwner)));
    s.token_owners.upsert(id(2), Key::Account(acct(3)));
    assert_eq!(s.transfer(acct(3), Ok(id(2)), acc(3), acc(2)), Err(user(NFTCoreError::InvalidTokenID)));
}

#[test]
fn transfer_refused_in_untransferable_modes() {
    for mode in [0u8, 1u8] {
        let mut s = fresh(5, true, mode);
        mint_to(&mut s, 1, 1).unwrap();
        let r = s.transfer(acct(1), Ok(id(0)), Ok(Key::Account(acct(1))), Ok(Key::Account(acct(2))));
        assert_eq!(r, Err(user(NFTCoreError::InvalidOwnershipMode)));
        assert_eq!(s.approve(acct(1), Ok(id(0)), Ok(Key::Account(acct(2)))), Err(user(NFTCoreError::InvalidOwnershipMode)));
        assert_eq!(s.set_approval_for_all(acct(1), Ok(true), Ok(Key::Account(acct(2)))), Err(user(NFTCoreError::InvalidOwnershipMode)));
    }
}

#[test]
fn approved_operator_may_transfer_once() {
    let mut s = fresh(5, true, 2);
    mint_to(&mut s, 1, 1).unwrap();
    assert_eq!(s.approve(acct(2), Ok(id(0)), Ok(Key::Account(acct(3)))), Err(user(NFTCoreError::InvalidAccountHash)));
    assert_eq!(s.approve(acct(1), Ok(id(0)), Ok(Key::Account(acct(1)))), Err(user(NFTCoreError::InvalidAccount)));
    assert_eq!(s.approve(acct(1), Ok(id(4)), Ok(Key::Account(acct(3)))), Err(user(NFTCoreError::InvalidTokenID)));
    assert_eq!(s.approve(acct(1), Ok(id(0)), Ok(Key::Hash([0; 32]))), Err(user(NFTCoreError::InvalidKey)));
    assert_eq!(s.approve(acct(1), Ok(id(0)), Ok(Key::Account(acct(3)))), Ok(()));
    assert!(matches!(s.get_approved(Ok(id(0))), Ok(Some(Key::Account(a))) if a.bytes == [3; 32]));
    let r = s.transfer(acct(3), Ok(id(0)), Ok(Key::Account(acct(1))), Ok(Key::Account(acct(4))));
    assert_eq!(r, Ok(()));
    assert_eq!(s.get_approved(Ok(id(0))), Ok(None));
    let r = s.transfer(acct(3), Ok(id(0)), Ok(Key::Account(acct(4))), Ok(Key::Account(acct(3))));
    assert_eq!(r, Err(user(NFTCoreError::InvalidAccount)));
}

#[test]
fn operator_that_is_not_an_account_cannot_be_unwrapped() {
    let mut s = fresh(5, true, 2);
    mint_to(&mut s, 1, 1).unwrap();
    s.operators.upsert(id(0), Some(Key::Hash([9; 32])));
    assert_eq!(s.get_approved(Ok(id(0))), Ok(Some(Key::Hash([9; 32]))));
    let r = s.transfer(acct(1), Ok(id(0)), Ok(Key::Account(acct(1))), Ok(Key::Account(acct(2))));
    assert_eq!(r, Err(Revert::NoneValue));
}

#[test]
fn set_approval_for_all_covers_the_callers_tokens() {
    let mut s = fresh(5, true, 3);
    mint_to(&mut s, 1, 1).unwrap();
    mint_to(&mut s, 1, 2).unwrap();
    mint_to(&mut s, 1, 1).unwrap();
    assert_eq!(s.set_approval_for_all(acct(1), Ok(true), Ok(Key::Account(acct(5)))), Ok(()));
    assert!(matches!(s.get_approved(Ok(id(0))), Ok(Some(Key::Account(a))) if a.bytes == [5; 32]));
    assert_eq!(s.get_approved(Ok(id(1))), Ok(None));
    assert!(matches!(s.get_approved(Ok(id(2))), Ok(Some(Key::Account(a))) if a.bytes == [5; 32]));
    assert_eq!(s.set_approval_for_all(acct(1), Ok(false), Ok(Key::Account(acct(5)))), Ok(()));
    assert_eq!(s.get_approved(Ok(id(0))), Ok(None));
    assert_eq!(s.get_approved(Ok(id(2))), Ok(None));
    assert_eq!(s.set_approval_for_all(acct(1), Err(user(NFTCoreError::MissingApproveAll)), Ok(Key::Account(acct(5)))), Err(user(NFTCoreError::MissingApproveAll)));
    assert_eq!(s.set_approval_for_all(acct(1), Ok(true), Err(user(NFTCoreError::InvalidOperator))), Err(user(NFTCoreError::InvalidOperator)));
}

#[test]
fn queries_check_the_id() {
    let mut s = fresh(5, true, 2);
    mint_to(&mut s, 1, 1).unwrap();
    assert_eq!(s.owner_of(Ok(id(1))).unwrap_err(), user(NFTCoreError::InvalidTokenID));
    assert_eq!(s.metadata(Ok(id(1))).unwrap_err(), user(NFTCoreError::InvalidTokenID));
    assert_eq!(s.get_approved(Ok(id(1))), Err(user(NFTCoreError::InvalidTokenID)));
    assert_eq!(s.owner_of(Err(user(NFTCoreError::MissingTokenID))).unwrap_err(), user(NFTCoreError::MissingTokenID));
    assert_eq!(s.balance_of(Ok(Key::Hash([1; 32]))).unwrap_err(), user(NFTCoreError::InvalidKey));
    assert_eq!(s.balance_of(Err(user(NFTCoreError::InvalidAccountHash))).unwrap_err(), user(NFTCoreError::InvalidAccountHash));
}

#[test]
fn balance_counts_owned_tokens_after_a_history() {
    let mut s = fresh(10, true, 2);
    for _ in 0..4 {
        mint_to(&mut s, 1, 1).unwrap();
    }
    s.transfer(acct(1), Ok(id(1)), Ok(Key::Account(acct(1))), Ok(Key::Account(acct(2)))).unwrap();
    s.burn(acct(1), Ok(id(3))).unwrap();
    // Account 1 owns tokens 0, 2, 3; token 3 is burnt.
    assert_eq!(balance(&s, 1), id(3));
    assert_eq!(s.token_counts.get(&acct(1)).copied(), Some(id(2)));
    assert_eq!(balance(&s, 2), id(1));
    assert_eq!(s.owned_tokens.get(&acct(1)).unwrap().clone(), vec![id(0), id(2), id(3)]);
}

#[test]
fn checks_report_the_first_error_without_changing_anything() {
    let mut s = fresh(5, false, 2);
    let owner = Ok(Key::Account(acct(2)));
    let uri = Ok("u".to_string());
    let meta = Ok("m".to_string());
    assert_eq!(s.mint_check(acct(1), &owner, &uri, &meta).err(), Some(user(NFTCoreError::InvalidAccount)));
    let (k, a) = s.mint_check(acct(INSTALLER), &owner, &uri, &meta).ok().unwrap();
    assert_eq!(k, Key::Account(acct(2)));
    assert_eq!(a, acct(2));
    s.mint(acct(INSTALLER), owner, uri, meta).unwrap();
    let from = Ok(Key::Account(acct(2)));
    let to = Ok(Key::Account(acct(3)));
    assert_eq!(s.transfer_check(acct(3), &Ok(id(0)), &from, &to).err(), Some(user(NFTCoreError::InvalidAccount)));
    let p = s.transfer_check(acct(2), &Ok(id(0)), &from, &to).ok().unwrap();
    assert_eq!(p.token_id, id(0));
    assert_eq!(p.from_list, vec![]);
    assert_eq!(p.to_list, vec![id(0)]);
    assert_eq!(p.from_count, id(0));
    assert_eq!(s.number_of_minted_tokens, id(1));
}

#[test]
fn transfer_there_and_back_restores_balances() {
    let mut s = fresh(5, true, 2);
    mint_to(&mut s, 1, 1).unwrap();
    mint_to(&mut s, 1, 1).unwrap();
    let a = || Ok(Key::Account(acct(1)));
    let b = || Ok(Key::Account(acct(2)));
    s.transfer(acct(1), Ok(id(0)), a(), b()).unwrap();
    s.transfer(acct(2), Ok(id(0)), b(), a()).unwrap();
    assert!(matches!(s.owner_of(Ok(id(0))).unwrap(), Key::Account(x) if x.bytes == [1; 32]));
    assert_eq!(s.token_counts.get(&acct(1)).copied(), Some(id(2)));
    assert_eq!(s.token_counts.get(&acct(2)).copied(), Some(id(0)));
    assert_eq!(balance(&s, 1), id(2));
    assert_eq!(balance(&s, 2), id(0));
    assert_eq!(s.get_approved(Ok(id(0))), Ok(None));
}

#[test]
fn settings_and_metadata_survive_a_history() {
    let mut s = fresh(5, true, 2);
    mint_to(&mut s, 1, 1).unwrap();
    s.approve(acct(1), Ok(id(0)), Ok(Key::Account(acct(3)))).unwrap();
    s.transfer(acct(3), Ok(id(0)), Ok(Key::Account(acct(1))), Ok(Key::Account(acct(2)))).unwrap();
    s.burn(acct(2), Ok(id(0))).unwrap();
    s.set_variables(acct(INSTALLER), Ok(Some(false))).unwrap();
    assert_eq!(mint_to(&mut s, 1, 1).err(), Some(user(NFTCoreError::MintingIsPaused)));
    assert_eq!(s.number_of_minted_tokens, id(1));
    assert_eq!(s.metadata(Ok(id(0))).unwrap(), "meta");
    assert!(matches!(s.owner_of(Ok(id(0))).unwrap(), Key::Account(x) if x.bytes == [2; 32]));
    assert_eq!(s.collection_name, "Apes");
    assert_eq!(s.total_token_supply, id(5));
}

#[test]
fn approval_lasts_across_calls_that_leave_the_token_alone() {
    let mut s = fresh(5, true, 2);
    mint_to(&mut s, 1, 1).unwrap();
    mint_to(&mut s, 1, 2).unwrap();
    assert_eq!(s.approve(acct(1), Ok(id(0)), Ok(Key::Account(acct(3)))), Ok(()));
    // Other tokens are minted, approved, moved and burnt; settings change.
    mint_to(&mut s, 1, 2).unwrap();
    assert_eq!(s.approve(acct(2), Ok(id(1)), Ok(Key::Account(acct(4)))), Ok(()));
    assert_eq!(s.transfer(acct(2), Ok(id(1)), Ok(Key::Account(acct(2))), Ok(Key::Account(acct(5)))), Ok(()));
    assert_eq!(s.set_approval_for_all(acct(2), Ok(true), Ok(Key::Account(acct(6)))), Ok(()));
    assert_eq!(s.burn(acct(5), Ok(id(1))), Ok(()));
    assert_eq!(s.set_variables(acct(INSTALLER), Ok(Some(false))), Ok(()));
    assert!(matches!(s.get_approved(Ok(id(0))), Ok(Some(Key::Account(a))) if a.bytes == [3; 32]));
    // Once the token moves, its approval stays cleared through the same kind of calls.
    assert_eq!(s.transfer(acct(1), Ok(id(0)), Ok(Key::Account(acct(1))), Ok(Key::Account(acct(8)))), Ok(()));
    assert_eq!(s.set_variables(acct(INSTALLER), Ok(Some(true))), Ok(()));
    mint_to(&mut s, 1, 8).unwrap();
    assert_eq!(s.approve(acct(8), Ok(id(3)), Ok(Key::Account(acct(4)))), Ok(()));
    assert_eq!(s.get_approved(Ok(id(0))), Ok(None));
}
