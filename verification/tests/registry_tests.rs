use collection_price_manager::errors::ErrorCode;
use collection_price_manager::identity::Identity;
use collection_price_manager::layout;
use collection_price_manager::registry::{
    fetch_prices, initialize_collection, update_prices, CollectionPrices, FetchPrices,
    InitializeCollection, UpdatePrices, PRICE_CEILING,
};

fn id(tag: u8) -> Identity {
    Identity { bytes: [tag; 32] }
}

fn program_id() -> Identity {
    id(9)
}

/// A freshly created registry for collection `c` with the given prices.
fn created(owner: Identity, c: Identity, mint: Identity, prices: Vec<u64>) -> (Identity, CollectionPrices) {
    let ctx = InitializeCollection { owner, collection_address: c };
    let size = prices.len() as u16;
    initialize_collection(&ctx, mint, size, prices, &program_id()).unwrap()
}

#[test]
fn create_then_read_returns_stored_prices() {
    let owner = id(1);
    let c = id(2);
    let mint = id(3);
    let (_, rec) = created(owner, c, mint, vec![100, 200, 300]);
    assert_eq!(rec.size, 3);
    let f = FetchPrices { collection_prices: Some(rec), collection_address: c };
    let (size, payment_mint, prices) = fetch_prices(&f).unwrap();
    assert_eq!(size, 3);
    assert_eq!(payment_mint, mint);
    assert_eq!(prices, vec![100, 200, 300]);
}

#[test]
fn create_with_wrong_size_fails_size_mismatch() {
    let ctx = InitializeCollection { owner: id(1), collection_address: id(2) };
    let r = initialize_collection(&ctx, id(3), 4, vec![100, 200, 300], &program_id());
    assert_eq!(r.unwrap_err(), ErrorCode::SizeMismatch);
}

#[test]
fn create_stores_owner_collection_and_placeholder_tree() {
    let owner = id(1);
    let c = id(2);
    let (_, rec) = created(owner, c, id(3), vec![7]);
    assert_eq!(rec.owner, owner);
    assert_eq!(rec.collection_address, c);
    assert_eq!(rec.merkle_tree, Identity::default());
}

#[test]
fn fetch_without_record_fails_not_found() {
    let f = FetchPrices { collection_prices: None, collection_address: id(2) };
    assert_eq!(fetch_prices(&f).unwrap_err(), ErrorCode::NotFound);
}

#[test]
fn update_replaces_prices_and_reports_event() {
    let owner = id(1);
    let c = id(2);
    let (_, rec) = created(owner, c, id(3), vec![100, 200, 300]);
    let mut ctx = UpdatePrices { collection_prices: rec, owner, collection_address: c };
    let ev = update_prices(&mut ctx, vec![111, 222, 333], &program_id(), 1700000000).unwrap();
    assert_eq!(ctx.collection_prices.prices, vec![111, 222, 333]);
    assert_eq!(ev.collection, c);
    assert_eq!(ev.owner, owner);
    assert_eq!(ev.timestamp, 1700000000);
}

#[test]
fn update_by_non_owner_fails_unauthorized() {
    let owner = id(1);
    let c = id(2);
    let (_, rec) = created(owner, c, id(3), vec![100, 200, 300]);
    let mut ctx = UpdatePrices { collection_prices: rec, owner: id(4), collection_address: c };
    let r = update_prices(&mut ctx, vec![111, 222, 333], &program_id(), 0);
    assert_eq!(r.unwrap_err(), ErrorCode::Unauthorized);
    assert_eq!(ctx.collection_prices.prices, vec![100, 200, 300]);
}

#[test]
fn update_with_wrong_length_fails_size_mismatch() {
    let owner = id(1);
    let c = id(2);
    let (_, rec) = created(owner, c, id(3), vec![100, 200, 300]);
    let mut ctx = UpdatePrices { collection_prices: rec, owner, collection_address: c };
    let r = update_prices(&mut ctx, vec![100, 200], &program_id(), 0);
    assert_eq!(r.unwrap_err(), ErrorCode::SizeMismatch);
    assert_eq!(ctx.collection_prices.prices, vec![100, 200, 300]);
}

#[test]
fn update_with_zero_price_fails_and_keeps_old_prices() {
    let owner = id(1);
    let c = id(2);
    let (_, rec) = created(owner, c, id(3), vec![100, 200, 300]);
    let mut ctx = UpdatePrices { collection_prices: rec, owner, collection_address: c };
    let r = update_prices(&mut ctx, vec![0, 200, 300], &program_id(), 0);
    assert_eq!(r.unwrap_err(), ErrorCode::InvalidPrice);
    assert_eq!(ctx.collection_prices.prices, vec![100, 200, 300]);
    let f = FetchPrices {
        collection_prices: Some(ctx.collection_prices),
        collection_address: c,
    };
    let (_, _, prices) = fetch_prices(&f).unwrap();
    assert_eq!(prices, vec![100, 200, 300]);
}

#[test]
fn update_with_price_at_ceiling_fails_too_high() {
    let owner = id(1);
    let c = id(2);
    let (_, rec) = created(owner, c, id(3), vec![100, 200]);
    let mut ctx = UpdatePrices { collection_prices: rec, owner, collection_address: c };
    let r = update_prices(&mut ctx, vec![100, PRICE_CEILING], &program_id(), 0);
    assert_eq!(r.unwrap_err(), ErrorCode::PriceTooHigh);
    assert_eq!(ctx.collection_prices.prices, vec![100, 200]);
}

#[test]
fn update_accepts_price_just_below_ceiling() {
    let owner = id(1);
    let c = id(2);
    let (_, rec) = created(owner, c, id(3), vec![100]);
    let mut ctx = UpdatePrices { collection_prices: rec, owner, collection_address: c };
    update_prices(&mut ctx, vec![PRICE_CEILING - 1], &program_id(), 0).unwrap();
    assert_eq!(ctx.collection_prices.prices, vec![PRICE_CEILING - 1]);
}

#[test]
fn update_with_tampered_bump_fails_invalid_bump() {
    let owner = id(1);
    let c = id(2);
    let (_, mut rec) = created(owner, c, id(3), vec![100]);
    rec.bump = rec.bump.wrapping_add(1);
    let mut ctx = UpdatePrices { collection_prices: rec, owner, collection_address: c };
    let r = update_prices(&mut ctx, vec![100], &program_id(), 0);
    assert_eq!(r.unwrap_err(), ErrorCode::InvalidBump);
}

#[test]
fn creation_accepts_out_of_bound_prices_but_update_rejects_them() {
    // The creation path deliberately skips the price bounds; only the
    // update path enforces them.
    let owner = id(1);
    let c = id(2);
    let (_, rec) = created(owner, c, id(3), vec![0, PRICE_CEILING]);
    assert_eq!(rec.prices, vec![0, PRICE_CEILING]);
    let mut ctx = UpdatePrices { collection_prices: rec, owner, collection_address: c };
    let r = update_prices(&mut ctx, vec![0, PRICE_CEILING], &program_id(), 0);
    assert_eq!(r.unwrap_err(), ErrorCode::InvalidPrice);
}

#[test]
fn record_sizes_follow_the_layout() {
    // owner 32 + collection 32 + size 2 + mint 32 + count 4 + 3 * 8 + tree 32 + bump 1
    assert_eq!(CollectionPrices::dynamic_size(3), 159);
    assert_eq!(CollectionPrices::dynamic_size(0), 135);
    assert_eq!(layout::required_space(3), 167);
    assert_eq!(layout::COUNTER_RECORD_LEN, 8);
}

#[test]
fn error_messages_name_each_failure() {
    assert!(ErrorCode::Unauthorized.message().contains("not the collection owner"));
    assert!(ErrorCode::SizeMismatch.message().contains("Size mismatch"));
    assert!(ErrorCode::InvalidBump.message().contains("bump"));
    assert!(ErrorCode::InvalidPrice.message().contains("greater than 0"));
    assert!(ErrorCode::PriceTooHigh.message().contains("Price too high"));
    assert!(ErrorCode::InvalidTreeConfig.message().contains("Tree Config"));
    assert!(ErrorCode::InvalidMintAuthority.message().contains("Mint authority"));
    assert!(ErrorCode::NotFound.message().contains("No record"));
    assert!(ErrorCode::DerivationFailure.message().contains("bump seed"));
    assert!(ErrorCode::ExternalTreeError.message().contains("external tree program"));
}
