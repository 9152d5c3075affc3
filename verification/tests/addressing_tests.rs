use anchor_lang::prelude::Pubkey;
use collection_price_manager::addressing::{
    derive_mint_authority, derive_prices_address, derive_tree_index_address,
};
use collection_price_manager::identity::Identity;

fn id(tag: u8) -> Identity {
    Identity { bytes: [tag; 32] }
}

#[test]
fn derivation_is_deterministic() {
    let c = id(2);
    let p = id(9);
    let first = derive_prices_address(&c, &p).unwrap();
    let second = derive_prices_address(&c, &p).unwrap();
    assert_eq!(first.0, second.0);
    assert_eq!(first.1, second.1);
}

#[test]
fn derivation_matches_the_platform() {
    let c = id(2);
    let p = id(9);
    let program = Pubkey::new_from_array(p.bytes);

    let (addr, bump) = derive_prices_address(&c, &p).unwrap();
    let (expected, expected_bump) =
        Pubkey::find_program_address(&[b"prices", &c.bytes], &program);
    assert_eq!(addr.bytes, expected.to_bytes());
    assert_eq!(bump, expected_bump);

    let (authority, authority_bump) = derive_mint_authority(&c, &p).unwrap();
    let (expected_authority, expected_authority_bump) =
        Pubkey::find_program_address(&[b"mint_authority", &c.bytes], &program);
    assert_eq!(authority.bytes, expected_authority.to_bytes());
    assert_eq!(authority_bump, expected_authority_bump);

    let t = id(7);
    let (counter, _) = derive_tree_index_address(&t, &p).unwrap();
    let (expected_counter, _) =
        Pubkey::find_program_address(&[b"tree_index", &t.bytes], &program);
    assert_eq!(counter.bytes, expected_counter.to_bytes());
}

#[test]
fn different_seeds_give_different_addresses() {
    let c = id(2);
    let p = id(9);
    let (prices_addr, _) = derive_prices_address(&c, &p).unwrap();
    let (authority_addr, _) = derive_mint_authority(&c, &p).unwrap();
    assert_ne!(prices_addr, authority_addr);
    assert_ne!(prices_addr, c);
}

#[test]
fn different_collections_give_different_addresses() {
    let p = id(9);
    let (a1, _) = derive_prices_address(&id(2), &p).unwrap();
    let (a2, _) = derive_prices_address(&id(3), &p).unwrap();
    assert_ne!(a1, a2);
}
