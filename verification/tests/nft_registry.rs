use ipfs_nft::frame::{DispatchError, Origin};
use ipfs_nft::nft::ledger::Error;
use ipfs_nft::nft::metadata::AssetMetadata;
use ipfs_nft::nft::pallet::{Config, Event, Pallet, UniqueAssets};
use parity_scale_codec::Encode;
use std::collections::BTreeMap;

fn account(n: u8) -> [u8; 32] {
    [n; 32]
}

fn metadata(name: &str) -> AssetMetadata {
    AssetMetadata {
        name: name.as_bytes().to_vec(),
        content_uri: b"ipfs://content".to_vec(),
        properties: None,
        initial_price: Some(10),
    }
}

const CURATOR: Origin = Origin::Signed([200u8; 32]);

fn pallet(asset_limit: u128, user_asset_limit: u64) -> Pallet {
    Pallet::new(Config { assets_curator: CURATOR, asset_limit, user_asset_limit })
}

/// The id the runtime gives an asset: Blake2b-256 of the SCALE encoding of
/// its attributes, as a struct with a `BTreeMap` of properties.
fn expected_id(m: &AssetMetadata) -> [u8; 32] {
    let props: Option<BTreeMap<Vec<u8>, Vec<u8>>> =
        m.properties.as_ref().map(|p| p.iter().cloned().collect());
    let encoded = (m.name.clone(), m.content_uri.clone(), props, m.initial_price).encode();
    <sp_core::Blake2Hasher as sp_core::Hasher>::hash(&encoded).0
}

#[test]
fn mint_gives_the_asset_to_the_owner() {
    let mut p = pallet(10, 5);
    let m = metadata("first");
    let id = expected_id(&m);
    assert_eq!(p.mint(CURATOR, account(1), m.clone()), Ok(()));
    assert_eq!(p.events(), &vec![Event::Minted(id, account(1))]);
    let r = p.registry();
    assert_eq!(r.total(), 1);
    assert_eq!(r.burned(), 0);
    assert_eq!(r.owner_of(&id), account(1));
    assert_eq!(r.total_for_account(&account(1)), 1);
    assert_eq!(r.total_for_account(&account(9)), 0);
    assert_eq!(r.assets_for_account(&account(1)), vec![(id, m)]);
    assert_eq!(r.assets_for_account(&account(9)), vec![]);
}

#[test]
fn asset_id_is_the_hash_of_the_encoded_attributes() {
    let mut m = metadata("with properties");
    m.properties = Some(vec![(b"a".to_vec(), b"1".to_vec()), (b"b".to_vec(), b"2".to_vec())]);
    assert!(m.is_well_formed());
    let id = m.asset_id();
    assert_eq!(id, expected_id(&m));
    assert_ne!(id, expected_id(&metadata("with properties")));
    let mut p = pallet(10, 5);
    assert_eq!(p.mint(CURATOR, account(1), m.clone()), Ok(()));
    assert_eq!(p.registry().owner_of(&id), account(1));
}

#[test]
fn property_keys_must_ascend() {
    let mut m = metadata("x");
    m.properties = Some(vec![(b"b".to_vec(), b"1".to_vec()), (b"a".to_vec(), b"2".to_vec())]);
    assert!(!m.is_well_formed());
    m.properties = Some(vec![(b"a".to_vec(), b"1".to_vec()), (b"a".to_vec(), b"2".to_vec())]);
    assert!(!m.is_well_formed());
    m.properties = Some(vec![(b"a".to_vec(), b"1".to_vec()), (b"ab".to_vec(), b"2".to_vec())]);
    assert!(m.is_well_formed());
    m.properties = Some(vec![]);
    assert!(m.is_well_formed());
}

#[test]
fn same_attributes_cannot_be_minted_twice() {
    let mut p = pallet(10, 5);
    assert_eq!(p.mint(CURATOR, account(1), metadata("a")), Ok(()));
    assert_eq!(
        p.mint(CURATOR, account(2), metadata("a")),
        Err(DispatchError::Module(Error::AssetAlreadyExists))
    );
    assert_eq!(p.registry().total(), 1);
    assert_eq!(p.registry().total_for_account(&account(2)), 0);
    assert_eq!(p.events().len(), 1);
}

#[test]
fn mint_refuses_beyond_the_account_limit() {
    let mut p = pallet(10, 1);
    assert_eq!(p.mint(CURATOR, account(1), metadata("a")), Ok(()));
    assert_eq!(
        p.mint(CURATOR, account(1), metadata("b")),
        Err(DispatchError::Module(Error::AssetForAccountLimitExcited))
    );
    assert_eq!(p.mint(CURATOR, account(2), metadata("b")), Ok(()));
}

#[test]
fn mint_refuses_beyond_the_asset_limit() {
    let mut p = pallet(1, 5);
    assert_eq!(p.mint(CURATOR, account(1), metadata("a")), Ok(()));
    assert_eq!(
        p.mint(CURATOR, account(2), metadata("b")),
        Err(DispatchError::Module(Error::AssetLimitExcited))
    );
    assert_eq!(p.registry().total(), 1);
}

#[test]
fn calls_need_a_signed_origin() {
    let mut p = pallet(10, 5);
    assert_eq!(p.mint(Origin::Root, account(1), metadata("a")), Err(DispatchError::BadOrigin));
    assert_eq!(p.mint(Origin::Signed(account(1)), account(1), metadata("a")), Err(DispatchError::BadOrigin));
    assert_eq!(p.mint(Origin::Unsigned, account(1), metadata("a")), Err(DispatchError::BadOrigin));
    let id = metadata("a").asset_id();
    assert_eq!(p.burn(Origin::Unsigned, id), Err(DispatchError::BadOrigin));
    assert_eq!(p.transfer(Origin::Root, account(2), id), Err(DispatchError::BadOrigin));
    assert!(p.events().is_empty());
    assert_eq!(p.registry().total(), 0);
}

#[test]
fn burn_removes_the_asset() {
    let mut p = pallet(10, 5);
    let m = metadata("a");
    let id = m.asset_id();
    assert_eq!(p.mint(CURATOR, account(1), m), Ok(()));
    assert_eq!(p.burn(Origin::Signed(account(1)), id), Ok(()));
    let r = p.registry();
    assert_eq!(r.total(), 0);
    assert_eq!(r.burned(), 1);
    assert_eq!(r.owner_of(&id), [0u8; 32]);
    assert_eq!(r.total_for_account(&account(1)), 0);
    assert!(r.assets_for_account(&account(1)).is_empty());
    assert_eq!(p.events().last(), Some(&Event::Burned(id)));
    // The same attributes can be minted again once burned.
    assert_eq!(p.mint(CURATOR, account(2), metadata("a")), Ok(()));
}

#[test]
fn only_the_owner_may_burn() {
    let mut p = pallet(10, 5);
    let id = metadata("a").asset_id();
    assert_eq!(p.mint(CURATOR, account(1), metadata("a")), Ok(()));
    assert_eq!(
        p.burn(Origin::Signed(account(2)), id),
        Err(DispatchError::Module(Error::AssetNotOwnedByAccount))
    );
    assert_eq!(p.registry().total(), 1);
    let unknown = metadata("never minted").asset_id();
    assert_eq!(
        p.burn(Origin::Signed(account(1)), unknown),
        Err(DispatchError::Module(Error::AssetNotOwnedByAccount))
    );
}

#[test]
fn unknown_asset_cannot_be_burned_even_by_the_default_account() {
    let mut p = pallet(10, 5);
    let unknown = metadata("never minted").asset_id();
    assert_eq!(p.registry().owner_of(&unknown), [0u8; 32]);
    assert_eq!(
        p.burn(Origin::Signed([0u8; 32]), unknown),
        Err(DispatchError::Module(Error::AssetNotOwnedByAccount))
    );
    assert_eq!(
        p.transfer(Origin::Signed([0u8; 32]), account(1), unknown),
        Err(DispatchError::Module(Error::AssetNotOwnedByAccount))
    );
    assert_eq!(p.registry().burned(), 0);
}

#[test]
fn transfer_moves_the_asset() {
    let mut p = pallet(10, 5);
    let a = metadata("a");
    let id = a.asset_id();
    assert_eq!(p.mint(CURATOR, account(1), a.clone()), Ok(()));
    assert_eq!(p.transfer(Origin::Signed(account(1)), account(2), id), Ok(()));
    let r = p.registry();
    assert_eq!(r.owner_of(&id), account(2));
    assert_eq!(r.total_for_account(&account(1)), 0);
    assert_eq!(r.total_for_account(&account(2)), 1);
    assert_eq!(r.assets_for_account(&account(2)), vec![(id, a)]);
    assert_eq!(r.total(), 1);
    assert_eq!(p.events().last(), Some(&Event::Transferred(id, account(2))));
    // The former owner may no longer move it.
    assert_eq!(
        p.transfer(Origin::Signed(account(1)), account(3), id),
        Err(DispatchError::Module(Error::AssetNotOwnedByAccount))
    );
}

#[test]
fn transfer_refuses_a_full_account() {
    let mut p = pallet(10, 1);
    let id = metadata("a").asset_id();
    assert_eq!(p.mint(CURATOR, account(1), metadata("a")), Ok(()));
    assert_eq!(p.mint(CURATOR, account(2), metadata("b")), Ok(()));
    assert_eq!(
        p.transfer(Origin::Signed(account(1)), account(2), id),
        Err(DispatchError::Module(Error::AssetForAccountLimitExcited))
    );
    // Even a transfer to oneself needs room for one more asset.
    assert_eq!(
        p.transfer(Origin::Signed(account(1)), account(1), id),
        Err(DispatchError::Module(Error::AssetForAccountLimitExcited))
    );
    assert_eq!(p.registry().owner_of(&id), account(1));
}

#[test]
fn transfer_and_back_restores_owners_and_counts() {
    let mut p = pallet(10, 5);
    let id = metadata("a").asset_id();
    assert_eq!(p.mint(CURATOR, account(1), metadata("a")), Ok(()));
    assert_eq!(p.transfer(Origin::Signed(account(1)), account(2), id), Ok(()));
    assert_eq!(p.transfer(Origin::Signed(account(2)), account(1), id), Ok(()));
    let r = p.registry();
    assert_eq!(r.assets_for_account(&account(1)), vec![(id, metadata("a"))]);
    assert!(r.assets_for_account(&account(2)).is_empty());
    assert_eq!(r.owner_of(&id), account(1));
    assert_eq!(r.total_for_account(&account(1)), 1);
    assert_eq!(r.total_for_account(&account(2)), 0);
    assert_eq!(r.total(), 1);
}

#[test]
fn burn_after_mint_restores_the_holdings() {
    let mut p = pallet(10, 5);
    assert_eq!(p.mint(CURATOR, account(1), metadata("kept")), Ok(()));
    let before_total = p.registry().total();
    let before_list = p.registry().assets_for_account(&account(1));
    let m = metadata("passing");
    let id = m.asset_id();
    assert_eq!(p.mint(CURATOR, account(1), m), Ok(()));
    assert_eq!(p.burn(Origin::Signed(account(1)), id), Ok(()));
    assert_eq!(p.registry().total(), before_total);
    assert_eq!(p.registry().assets_for_account(&account(1)), before_list);
    assert_eq!(p.registry().burned(), 1);
}

#[test]
fn burn_finds_the_asset_in_any_order() {
    let mut p = pallet(10, 5);
    let mut ms: Vec<AssetMetadata> = (0..4).map(|i| metadata(&format!("asset {}", i))).collect();
    ms.sort_by_key(|m| m.asset_id());
    ms.swap(0, 3);
    for m in &ms {
        assert_eq!(p.mint(CURATOR, account(1), m.clone()), Ok(()));
    }
    let target = ms[2].asset_id();
    assert_eq!(p.burn(Origin::Signed(account(1)), target), Ok(()));
    let left: Vec<[u8; 32]> = p.registry().assets_for_account(&account(1)).iter().map(|a| a.0).collect();
    let expected: Vec<[u8; 32]> =
        ms.iter().map(|m| m.asset_id()).filter(|x| *x != target).collect();
    assert_eq!(left, expected);
    assert_eq!(p.registry().total_for_account(&account(1)), 3);
    // The first-minted asset, now out of order, moves too.
    let first = ms[0].asset_id();
    assert_eq!(p.transfer(Origin::Signed(account(1)), account(2), first), Ok(()));
    assert_eq!(p.registry().owner_of(&first), account(2));
    assert_eq!(p.registry().total_for_account(&account(1)), 2);
}

#[test]
fn only_the_curator_may_mint() {
    let mut p = pallet(10, 5);
    assert_eq!(p.mint(Origin::Signed(account(1)), account(1), metadata("a")), Err(DispatchError::BadOrigin));
    assert_eq!(p.mint(Origin::Unsigned, account(1), metadata("a")), Err(DispatchError::BadOrigin));
    assert!(p.events().is_empty());
    let mut q = Pallet::new(Config { assets_curator: Origin::Root, asset_limit: 10, user_asset_limit: 5 });
    assert_eq!(q.mint(Origin::Root, account(1), metadata("a")), Ok(()));
    assert_eq!(q.mint(CURATOR, account(1), metadata("b")), Err(DispatchError::BadOrigin));
}

#[test]
fn asset_minted_for_the_default_account_is_stuck() {
    let mut p = pallet(10, 5);
    let id = metadata("a").asset_id();
    assert_eq!(p.mint(CURATOR, [0u8; 32], metadata("a")), Ok(()));
    assert_eq!(
        p.burn(Origin::Signed([0u8; 32]), id),
        Err(DispatchError::Module(Error::AssetNotOwnedByAccount))
    );
    assert_eq!(
        p.mint(CURATOR, account(1), metadata("a")),
        Err(DispatchError::Module(Error::AssetAlreadyExists))
    );
}

#[test]
fn config_is_kept() {
    let p = pallet(7, 3);
    assert_eq!(p.config(), Config { assets_curator: CURATOR, asset_limit: 7, user_asset_limit: 3 });
}

#[test]
fn long_attributes_hash_like_the_codec() {
    let mut m = metadata(&"n".repeat(100));
    m.content_uri = vec![7u8; 20000];
    m.properties = Some(vec![(vec![1u8; 70], vec![2u8; 3])]);
    m.initial_price = None;
    assert!(m.is_encodable());
    assert!(m.is_well_formed());
    assert_eq!(m.asset_id(), expected_id(&m));
}

#[test]
fn total_is_mints_minus_burns_and_the_sum_of_counts() {
    let mut p = pallet(10, 5);
    let names = ["a", "b", "c", "d"];
    for (i, n) in names.iter().enumerate() {
        assert_eq!(p.mint(CURATOR, account(1 + (i as u8) % 2), metadata(n)), Ok(()));
    }
    assert_eq!(p.burn(Origin::Signed(account(1)), metadata("a").asset_id()), Ok(()));
    assert_eq!(p.transfer(Origin::Signed(account(2)), account(3), metadata("b").asset_id()), Ok(()));
    let r = p.registry();
    assert_eq!(r.total(), 4 - 1);
    assert_eq!(r.burned(), 1);
    let sum: u64 = (1..=3).map(|a| r.total_for_account(&account(a))).sum();
    assert_eq!(sum as u128, r.total());
}
