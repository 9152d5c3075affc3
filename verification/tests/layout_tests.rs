use collection_price_manager::identity::Identity;
use collection_price_manager::layout::{
    decode_counter, decode_record, encode_counter, encode_record, required_space,
};
use collection_price_manager::orchestrator::TreeIndexCounter;
use collection_price_manager::registry::{
    initialize_collection, CollectionPrices, InitializeCollection,
};

fn id(tag: u8) -> Identity {
    Identity { bytes: [tag; 32] }
}

fn sample_record() -> CollectionPrices {
    let ctx = InitializeCollection { owner: id(1), collection_address: id(2) };
    initialize_collection(&ctx, id(3), 3, vec![100, 200, 300], &id(9)).unwrap().1
}

#[test]
fn encode_lays_fields_out_in_order() {
    let rec = sample_record();
    let bytes = encode_record(&rec);
    assert_eq!(bytes.len(), 135 + 8 * 3);
    assert_eq!(&bytes[0..32], &rec.owner.bytes);
    assert_eq!(&bytes[32..64], &rec.collection_address.bytes);
    assert_eq!(&bytes[64..66], &3u16.to_le_bytes());
    assert_eq!(&bytes[66..98], &rec.payment_mint.bytes);
    assert_eq!(&bytes[98..102], &3u32.to_le_bytes());
    assert_eq!(&bytes[102..110], &100u64.to_le_bytes());
    assert_eq!(&bytes[110..118], &200u64.to_le_bytes());
    assert_eq!(&bytes[118..126], &300u64.to_le_bytes());
    assert_eq!(&bytes[126..158], &rec.merkle_tree.bytes);
    assert_eq!(bytes[158], rec.bump);
    assert_eq!(bytes.len() + 8, required_space(3));
}

#[test]
fn decode_inverts_encode() {
    let rec = sample_record();
    let bytes = encode_record(&rec);
    let back = decode_record(&bytes).unwrap();
    assert_eq!(back.owner, rec.owner);
    assert_eq!(back.collection_address, rec.collection_address);
    assert_eq!(back.size, rec.size);
    assert_eq!(back.payment_mint, rec.payment_mint);
    assert_eq!(back.prices, rec.prices);
    assert_eq!(back.merkle_tree, rec.merkle_tree);
    assert_eq!(back.bump, rec.bump);
}

#[test]
fn decode_rejects_malformed_bytes() {
    assert!(decode_record(&[]).is_none());
    assert!(decode_record(&[0u8; 134]).is_none());

    let rec = sample_record();
    let bytes = encode_record(&rec);
    // Truncated body: the stored count no longer accounts for the bytes.
    assert!(decode_record(&bytes[..bytes.len() - 1]).is_none());
    // A count that contradicts the declared size.
    let mut tampered = bytes.clone();
    tampered[64] = 7;
    assert!(decode_record(&tampered).is_none());
}

#[test]
fn counter_record_is_eight_little_endian_bytes() {
    let counter = TreeIndexCounter { current_index: 513 };
    let bytes = encode_counter(&counter);
    assert_eq!(bytes, vec![1, 2, 0, 0, 0, 0, 0, 0]);
    assert_eq!(decode_counter(&bytes).unwrap(), counter);
    assert!(decode_counter(&bytes[..7]).is_none());
}

#[test]
fn empty_price_list_round_trips() {
    let ctx = InitializeCollection { owner: id(1), collection_address: id(2) };
    let rec = initialize_collection(&ctx, id(3), 0, vec![], &id(9)).unwrap().1;
    let bytes = encode_record(&rec);
    assert_eq!(bytes.len(), 135);
    let back = decode_record(&bytes).unwrap();
    assert_eq!(back.prices, Vec::<u64>::new());
    assert_eq!(back.size, 0);
}
