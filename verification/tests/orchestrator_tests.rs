use collection_price_manager::addressing::derive_mint_authority;
use collection_price_manager::errors::ErrorCode;
use collection_price_manager::identity::Identity;
use collection_price_manager::orchestrator::{
    create_tree, rotate_tree, set_merkle_tree, verify_tree_authority, SetMerkleTree,
    TreeIndexCounter,
};
use collection_price_manager::registry::{initialize_collection, InitializeCollection};

fn id(tag: u8) -> Identity {
    Identity { bytes: [tag; 32] }
}

fn program_id() -> Identity {
    id(9)
}

fn created(owner: Identity, c: Identity) -> collection_price_manager::registry::CollectionPrices {
    let ctx = InitializeCollection { owner, collection_address: c };
    initialize_collection(&ctx, id(3), 2, vec![100, 200], &program_id()).unwrap().1
}

/// The byte layout of the external tree program's configuration record:
/// discriminator (8), tree creator (32), tree delegate (32), total mint
/// capacity (8, little endian), minted so far (8, little endian), public
/// flag (1), decompressible state (1), version (1).
fn tree_config_bytes(delegate: [u8; 32]) -> Vec<u8> {
    let mut v = vec![0u8; 8];
    v.extend_from_slice(&[7u8; 32]);
    v.extend_from_slice(&delegate);
    v.extend_from_slice(&5000u64.to_le_bytes());
    v.extend_from_slice(&3u64.to_le_bytes());
    v.push(0);
    v.push(1);
    v.push(0);
    v
}

#[test]
fn tree_config_with_derived_delegate_validates() {
    let c = id(2);
    let (authority, _) = derive_mint_authority(&c, &program_id()).unwrap();
    let data = tree_config_bytes(authority.bytes);
    assert!(verify_tree_authority(&data, &c, &program_id()).is_ok());
}

#[test]
fn tree_config_with_foreign_delegate_is_rejected() {
    let c = id(2);
    let data = tree_config_bytes([13u8; 32]);
    let r = verify_tree_authority(&data, &c, &program_id());
    assert_eq!(r.unwrap_err(), ErrorCode::InvalidMintAuthority);
}

#[test]
fn unparseable_tree_config_is_rejected() {
    let c = id(2);
    let data = vec![1u8, 2, 3];
    let r = verify_tree_authority(&data, &c, &program_id());
    assert_eq!(r.unwrap_err(), ErrorCode::InvalidTreeConfig);
}

#[test]
fn set_merkle_tree_adopts_validated_tree() {
    let owner = id(1);
    let c = id(2);
    let rec = created(owner, c);
    let (authority, _) = derive_mint_authority(&c, &program_id()).unwrap();
    let mut ctx = SetMerkleTree {
        collection_prices: rec,
        owner,
        collection_address: c,
        tree_config_data: tree_config_bytes(authority.bytes),
    };
    let tree = id(0xA1);
    set_merkle_tree(&mut ctx, tree, &program_id()).unwrap();
    assert_eq!(ctx.collection_prices.merkle_tree, tree);
    assert_eq!(ctx.collection_prices.prices, vec![100, 200]);
}

#[test]
fn set_merkle_tree_by_non_owner_fails_unauthorized() {
    let owner = id(1);
    let c = id(2);
    let rec = created(owner, c);
    let (authority, _) = derive_mint_authority(&c, &program_id()).unwrap();
    let mut ctx = SetMerkleTree {
        collection_prices: rec,
        owner: id(4),
        collection_address: c,
        tree_config_data: tree_config_bytes(authority.bytes),
    };
    let r = set_merkle_tree(&mut ctx, id(0xA1), &program_id());
    assert_eq!(r.unwrap_err(), ErrorCode::Unauthorized);
    assert_eq!(ctx.collection_prices.merkle_tree, Identity::default());
}

#[test]
fn create_tree_plans_call_signed_by_derived_authority() {
    let owner = id(1);
    let c = id(2);
    let rec = created(owner, c);
    let req = create_tree(&rec, &owner, &c, &program_id(), 14, 64).unwrap();
    let (authority, bump) = derive_mint_authority(&c, &program_id()).unwrap();
    assert_eq!(req.tree_creator, authority);
    assert_eq!(req.authority_bump, bump);
    assert_eq!(req.payer, owner);
    assert_eq!(req.max_depth, 14);
    assert_eq!(req.max_buffer_size, 64);
    assert!(!req.public);
}

#[test]
fn create_tree_by_non_owner_fails_unauthorized() {
    let owner = id(1);
    let c = id(2);
    let rec = created(owner, c);
    let r = create_tree(&rec, &id(4), &c, &program_id(), 14, 64);
    assert_eq!(r.unwrap_err(), ErrorCode::Unauthorized);
}

#[test]
fn rotate_tree_by_non_owner_fails_unauthorized() {
    let owner = id(1);
    let c = id(2);
    let mut rec = created(owner, c);
    let r = rotate_tree(&mut rec, &id(4), &id(0xA1), &program_id());
    assert_eq!(r.unwrap_err(), ErrorCode::Unauthorized);
    assert_eq!(rec.merkle_tree, Identity::default());
}

#[test]
fn create_then_rotate_changes_tree_and_resets_counter() {
    let owner = id(1);
    let c = id(2);
    let mut rec = created(owner, c);

    let req1 = create_tree(&rec, &owner, &c, &program_id(), 14, 64).unwrap();
    let first_tree = id(0xA1);
    let (counter_addr1, counter1) = rotate_tree(&mut rec, &owner, &first_tree, &program_id()).unwrap();
    assert_eq!(rec.merkle_tree, first_tree);
    assert_eq!(counter1, TreeIndexCounter { current_index: 0 });

    let req2 = create_tree(&rec, &owner, &c, &program_id(), 14, 64).unwrap();
    let second_tree = id(0xB2);
    let (counter_addr2, counter2) = rotate_tree(&mut rec, &owner, &second_tree, &program_id()).unwrap();
    assert_ne!(rec.merkle_tree, first_tree);
    assert_eq!(rec.merkle_tree, second_tree);
    assert_eq!(counter2.current_index, 0);

    // The signing authority is per collection, so both plans agree on it;
    // the counter records are per tree, so their addresses differ.
    assert_eq!(req1.tree_creator, req2.tree_creator);
    assert_ne!(counter_addr1, counter_addr2);
    assert_eq!(rec.prices, vec![100, 200]);
}
