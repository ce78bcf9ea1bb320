use nft_core::address::{account_item_key, owned_tokens_key};
use nft_core::install::{entry_points, install_config, ClType};
use nft_core::key::{AccountHash, Key};
use nft_core::modes::{NFTAssetType, OwnershipMode};
use nft_core::error::{NFTCoreError, Revert};
use nft_core::uint::{u256_add, u256_lt, u256_sub, U256};

#[test]
fn u256_arithmetic_carries_across_words() {
    let a = U256 { w0: u64::MAX, w1: 0, w2: 0, w3: 0 };
    let s = u256_add(&a, &U256::one());
    assert_eq!(s, U256 { w0: 0, w1: 1, w2: 0, w3: 0 });
    assert_eq!(u256_sub(&s, &U256::one()), a);
    assert!(u256_lt(&a, &s));
    assert!(!u256_lt(&s, &a));
    assert!(!u256_lt(&s, &s));
    let big = U256 { w0: 0, w1: 0, w2: 0, w3: 1 };
    let small = U256 { w0: u64::MAX, w1: u64::MAX, w2: u64::MAX, w3: 0 };
    assert!(u256_lt(&small, &big));
    assert_eq!(u256_add(&small, &U256::one()), big);
    assert_eq!(u256_sub(&U256::from_u64(10), &U256::from_u64(3)), U256::from_u64(7));
}

#[test]
fn account_hashes_compare_bytewise() {
    let a = AccountHash { bytes: [1; 32] };
    let mut b = AccountHash { bytes: [1; 32] };
    assert!(a.same(&b));
    b.bytes[31] = 2;
    assert!(!a.same(&b));
}

#[test]
fn only_account_keys_name_accounts() {
    let a = AccountHash { bytes: [3; 32] };
    assert!(Key::Account(a).into_account().is_some());
    assert!(Key::Bid(a).into_account().is_none());
    assert!(Key::SystemContractRegistry.into_account().is_none());
    assert!(Key::URef([0; 32], 7).into_account().is_none());
}

#[test]
fn modes_round_trip_through_bytes() {
    for b in 0u8..4 {
        assert_eq!(OwnershipMode::try_from_u8(b).unwrap().to_u8(), b);
    }
    assert_eq!(OwnershipMode::try_from_u8(4), Err(Revert::User(NFTCoreError::InvalidOwnershipMode)));
    for b in 0u8..3 {
        assert_eq!(NFTAssetType::try_from_u8(b).unwrap().to_u8(), b);
    }
    assert_eq!(NFTAssetType::try_from_u8(3), Err(Revert::User(NFTCoreError::InvalidNftAssetType)));
    assert!(OwnershipMode::TransferableChecked.transferable());
    assert!(!OwnershipMode::Assigned.transferable());
}

#[test]
fn install_defaults_minting_on_and_public_minting_off() {
    let c = install_config(
        Ok("A".to_string()), Ok("B".to_string()), Ok(U256::from_u64(3)),
        Ok(None), Ok(None), Ok(2), Ok(1), Ok("{}".to_string()),
    ).ok().unwrap();
    assert!(c.allow_minting);
    assert!(!c.public_minting);
    assert_eq!(c.ownership_mode, 2);
    assert_eq!(c.total_token_supply, U256::from_u64(3));
    let c = install_config(
        Ok("A".to_string()), Ok("B".to_string()), Ok(U256::from_u64(3)),
        Ok(Some(false)), Ok(Some(true)), Ok(9), Ok(1), Ok("{}".to_string()),
    ).ok().unwrap();
    assert!(!c.allow_minting);
    assert!(c.public_minting);
    assert_eq!(c.ownership_mode, 9);
    let r = install_config(
        Ok("A".to_string()), Ok("B".to_string()), Err(Revert::User(NFTCoreError::MissingTotalTokenSupply)),
        Err(Revert::User(NFTCoreError::InvalidMintingStatus)), Ok(None), Ok(2), Ok(1), Ok("{}".to_string()),
    );
    assert_eq!(r.err(), Some(Revert::User(NFTCoreError::MissingTotalTokenSupply)));
}

#[test]
fn the_stored_contract_offers_eleven_entry_points() {
    let eps = entry_points();
    let names: Vec<&str> = eps.iter().map(|e| e.name).collect();
    assert_eq!(names, vec![
        "init", "set_variables", "mint", "burn", "transfer", "approve",
        "owner_of", "balance_of", "get_approved", "metadata", "set_approval_for_all",
    ]);
    assert_eq!(eps[0].params.len(), 6);
    assert_eq!(eps[4].params.iter().map(|p| p.name).collect::<Vec<_>>(), vec!["token_id", "from_account_hash", "to_account_hash"]);
    assert_eq!(eps[6].ret, ClType::Key);
    assert_eq!(eps[8].ret, ClType::OptionKey);
    assert_eq!(eps[7].ret, ClType::U256);
    assert_eq!(eps[9].ret, ClType::String);
    assert_eq!(eps[2].ret, ClType::Unit);
}

#[test]
fn account_item_keys_are_lower_hex() {
    let mut bytes = [0u8; 32];
    bytes[0] = 0xab;
    bytes[1] = 0x09;
    bytes[31] = 0xf0;
    let a = AccountHash { bytes };
    let item = account_item_key(&a);
    assert_eq!(item.len(), 64);
    assert_eq!(&item[0..4], b"ab09");
    assert_eq!(&item[62..64], b"f0");
    assert_eq!(String::from_utf8(item).unwrap(), casper_types::account::AccountHash::new(bytes).to_string());
}

#[test]
fn owned_tokens_key_is_the_platforms_dictionary_key() {
    let seed_addr = [5u8; 32];
    let owner = AccountHash { bytes: [9u8; 32] };
    let k = owned_tokens_key(seed_addr, 7, &owner);
    let seed = casper_types::URef::new(seed_addr, casper_types::AccessRights::READ_ADD_WRITE);
    let item = casper_types::account::AccountHash::new(owner.bytes).to_string();
    let expected = casper_types::Key::dictionary(seed, item.as_bytes());
    match (k, expected) {
        (Key::Dictionary(a), casper_types::Key::Dictionary(b)) => assert_eq!(a, b),
        _ => panic!("not a dictionary key"),
    }
    assert_ne!(owned_tokens_key([6u8; 32], 7, &owner), k);
}
