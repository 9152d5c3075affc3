//! Byte-layout schema of the persisted records.
//!
//! A registry record is stored as
//! `owner (32) ++ collectionAddress (32) ++ size (2) ++ paymentMint (32)
//! ++ priceCount (4) ++ prices (8 each) ++ treeAddress (32) ++ bump (1)`,
//! preceded by a fixed storage-layer header. A tree's index-counter
//! record is a single 8-byte counter.

use vstd::prelude::*;
use vstd::bytes::{
    spec_u16_from_le_bytes, spec_u16_to_le_bytes, spec_u32_from_le_bytes, spec_u32_to_le_bytes,
    spec_u64_from_le_bytes, spec_u64_to_le_bytes, u16_from_le_bytes, u16_to_le_bytes,
    u32_from_le_bytes, u32_to_le_bytes, u64_from_le_bytes, u64_to_le_bytes,
};
use vstd::slice::slice_subrange;
use crate::identity::Identity;
use crate::orchestrator::TreeIndexCounter;
use crate::registry::CollectionPrices;

verus! {

/// Bytes of the fixed storage-layer header in front of every record.
pub const HEADER_LEN: usize = 8;

/// Bytes of a tree-index counter record: one 8-byte counter.
pub const COUNTER_RECORD_LEN: usize = 8;

/// Bytes of the fixed-width registry fields: owner (32), collection
/// address (32), size (2), payment mint (32), price count (4), tree
/// address (32), bump (1).
pub const FIXED_FIELDS_LEN: usize = 135;

/// Bytes each stored price occupies.
pub const PRICE_ENTRY_LEN: usize = 8;

/// Size in bytes of a registry record body holding `prices_len` prices,
/// excluding the storage-layer header.
pub open spec fn spec_record_size(prices_len: int) -> int {
    FIXED_FIELDS_LEN + PRICE_ENTRY_LEN * prices_len
}

/// Total storage a registry record of `prices_len` prices requires,
/// header included.
pub open spec fn spec_required_space(prices_len: int) -> int {
    HEADER_LEN + spec_record_size(prices_len)
}

/// Total storage to allocate for a registry of `prices_len` prices,
/// header included. The declared size field is 16 bits wide, so a
/// registry never holds more than 65535 prices.
pub fn required_space(prices_len: usize) -> (r: usize)
    requires
        prices_len <= u16::MAX as usize,
    ensures
        r == spec_required_space(prices_len as int),
{
    HEADER_LEN + FIXED_FIELDS_LEN + PRICE_ENTRY_LEN * prices_len
}

/// The price list as stored: each price as eight little-endian bytes,
/// in order.
pub open spec fn spec_prices_bytes(prices: Seq<u64>) -> Seq<u8>
    decreases prices.len(),
{
    if prices.len() == 0 {
        Seq::empty()
    } else {
        spec_u64_to_le_bytes(prices[0]) + spec_prices_bytes(prices.skip(1))
    }
}

/// The registry record body as stored, field by field: owner, collection
/// address, declared size (little endian), payment mint, price count
/// (little endian), the prices, tree address, bump.
pub open spec fn spec_record_bytes(rec: CollectionPrices) -> Seq<u8> {
    rec.owner.bytes@ + rec.collection_address.bytes@ + spec_u16_to_le_bytes(rec.size)
        + rec.payment_mint.bytes@ + spec_u32_to_le_bytes(rec.prices@.len() as u32)
        + spec_prices_bytes(rec.prices@) + rec.merkle_tree.bytes@ + seq![rec.bump]
}

/// The stored price list occupies exactly eight bytes per price.
pub proof fn lemma_prices_bytes_len(prices: Seq<u64>)
    ensures
        spec_prices_bytes(prices).len() == PRICE_ENTRY_LEN * prices.len(),
    decreases prices.len(),
{
    vstd::bytes::lemma_auto_spec_u64_to_from_le_bytes();
    if prices.len() > 0 {
        lemma_prices_bytes_len(prices.skip(1));
    }
}

/// A record body's encoding occupies exactly the storage that
/// `spec_record_size` computes from its price count.
pub proof fn lemma_record_bytes_len(rec: CollectionPrices)
    ensures
        spec_record_bytes(rec).len() == spec_record_size(rec.prices@.len() as int),
{
    vstd::bytes::lemma_auto_spec_u16_to_from_le_bytes();
    vstd::bytes::lemma_auto_spec_u32_to_from_le_bytes();
    lemma_prices_bytes_len(rec.prices@);
}

proof fn lemma_prices_bytes_snoc(prices: Seq<u64>, x: u64)
    ensures
        spec_prices_bytes(prices.push(x)) == spec_prices_bytes(prices) + spec_u64_to_le_bytes(x),
    decreases prices.len(),
{
    vstd::bytes::lemma_auto_spec_u64_to_from_le_bytes();
    if prices.len() == 0 {
        assert(prices.push(x)[0] == x);
        assert(prices.push(x).skip(1) =~= Seq::<u64>::empty());
        assert(spec_prices_bytes(prices.push(x).skip(1)) == Seq::<u8>::empty());
        assert(spec_prices_bytes(prices.push(x)) == spec_u64_to_le_bytes(x)
            + spec_prices_bytes(prices.push(x).skip(1)));
        assert(spec_prices_bytes(prices) == Seq::<u8>::empty());
        assert(spec_prices_bytes(prices.push(x)) =~= spec_prices_bytes(prices)
            + spec_u64_to_le_bytes(x));
    } else {
        lemma_prices_bytes_snoc(prices.skip(1), x);
        assert(prices.push(x)[0] == prices[0]);
        assert(prices.push(x).skip(1) =~= prices.skip(1).push(x));
        assert(spec_prices_bytes(prices.push(x)) == spec_u64_to_le_bytes(prices[0])
            + spec_prices_bytes(prices.skip(1).push(x)));
        assert(spec_prices_bytes(prices.push(x)) =~= spec_prices_bytes(prices)
            + spec_u64_to_le_bytes(x));
    }
}

fn push_bytes32(out: &mut Vec<u8>, b: &[u8; 32])
    ensures
        final(out)@ == old(out)@ + b@,
{
    let mut i: usize = 0;
    while i < 32
        invariant
            0 <= i <= 32,
            out@ == old(out)@ + b@.subrange(0, i as int),
        decreases 32 - i,
    {
        out.push(b[i]);
        proof {
            assert(out@ =~= old(out)@ + b@.subrange(0, i as int + 1));
        }
        i += 1;
    }
    proof {
        assert(b@.subrange(0, 32) =~= b@);
    }
}

/// Serialize a registry record body into exactly the stored layout.
pub fn encode_record(rec: &CollectionPrices) -> (out: Vec<u8>)
    requires
        rec.wf(),
    ensures
        out@ == spec_record_bytes(*rec),
        out@.len() == spec_record_size(rec.prices@.len() as int),
{
    let mut out: Vec<u8> = Vec::new();
    push_bytes32(&mut out, &rec.owner.bytes);
    push_bytes32(&mut out, &rec.collection_address.bytes);
    let mut size_bytes = u16_to_le_bytes(rec.size);
    out.append(&mut size_bytes);
    push_bytes32(&mut out, &rec.payment_mint.bytes);
    let count: u32 = rec.prices.len() as u32;
    let mut count_bytes = u32_to_le_bytes(count);
    out.append(&mut count_bytes);

    let ghost prefix = out@;
    let mut i: usize = 0;
    proof {
        assert(rec.prices@.subrange(0, 0) =~= Seq::<u64>::empty());
    }
    while i < rec.prices.len()
        invariant
            0 <= i <= rec.prices@.len(),
            out@ == prefix + spec_prices_bytes(rec.prices@.subrange(0, i as int)),
        decreases rec.prices@.len() - i,
    {
        let mut entry = u64_to_le_bytes(rec.prices[i]);
        out.append(&mut entry);
        proof {
            lemma_prices_bytes_snoc(rec.prices@.subrange(0, i as int), rec.prices@[i as int]);
            assert(rec.prices@.subrange(0, i as int).push(rec.prices@[i as int])
                =~= rec.prices@.subrange(0, i as int + 1));
            assert(out@ =~= prefix + spec_prices_bytes(rec.prices@.subrange(0, i as int + 1)));
        }
        i += 1;
    }
    proof {
        assert(rec.prices@.subrange(0, rec.prices@.len() as int) =~= rec.prices@);
    }

    push_bytes32(&mut out, &rec.merkle_tree.bytes);
    out.push(rec.bump);
    proof {
        assert(out@ =~= spec_record_bytes(*rec));
        lemma_record_bytes_len(*rec);
    }
    out
}

/// Serialize a tree-index counter record: its counter as eight
/// little-endian bytes.
pub fn encode_counter(counter: &TreeIndexCounter) -> (out: Vec<u8>)
    ensures
        out@ == spec_u64_to_le_bytes(counter.current_index),
        out@.len() == COUNTER_RECORD_LEN,
{
    proof {
        vstd::bytes::lemma_auto_spec_u64_to_from_le_bytes();
    }
    u64_to_le_bytes(counter.current_index)
}

/// Parse a tree-index counter record: exactly eight little-endian bytes.
pub fn decode_counter(data: &[u8]) -> (r: Option<TreeIndexCounter>)
    ensures
        r is Some <==> data@.len() == COUNTER_RECORD_LEN,
        r matches Some(c) ==> c.current_index == spec_u64_from_le_bytes(data@),
{
    if data.len() != COUNTER_RECORD_LEN {
        return None;
    }
    Some(TreeIndexCounter { current_index: u64_from_le_bytes(data) })
}

/// The shape a byte string must have to be a registry record body: room
/// for the fixed fields, a stored price count accounting for exactly the
/// remaining bytes, and a count that restates the declared 16-bit size.
pub open spec fn parses_as_record(data: Seq<u8>) -> bool {
    &&& data.len() >= FIXED_FIELDS_LEN
    &&& data.len() == FIXED_FIELDS_LEN + PRICE_ENTRY_LEN * (spec_u32_from_le_bytes(
        data.subrange(98, 102),
    ) as int)
    &&& spec_u32_from_le_bytes(data.subrange(98, 102)) == spec_u16_from_le_bytes(
        data.subrange(64, 66),
    ) as u32
}

fn read_bytes32(data: &[u8], off: usize) -> (r: [u8; 32])
    requires
        off + 32 <= data@.len(),
    ensures
        r@ == data@.subrange(off as int, off as int + 32),
{
    let len = data.len();
    let mut r: [u8; 32] = [0u8; 32];
    let mut i: usize = 0;
    while i < 32
        invariant
            0 <= i <= 32,
            off + 32 <= len == data@.len(),
            forall|k: int| 0 <= k < i ==> r@[k] == data@[off + k],
        decreases 32 - i,
    {
        r[i] = data[off + i];
        i += 1;
    }
    proof {
        assert(r@ =~= data@.subrange(off as int, off as int + 32));
    }
    r
}

proof fn lemma_prices_bytes_of_chunks(prices: Seq<u64>, data: Seq<u8>, off: int)
    requires
        0 <= off,
        off + 8 * prices.len() <= data.len(),
        forall|k: int| 0 <= k < prices.len() ==> prices[k] == spec_u64_from_le_bytes(
            #[trigger] data.subrange(off + 8 * k, off + 8 * k + 8),
        ),
    ensures
        spec_prices_bytes(prices) == data.subrange(off, off + 8 * prices.len()),
    decreases prices.len(),
{
    vstd::bytes::lemma_auto_spec_u64_to_from_le_bytes();
    if prices.len() == 0 {
        assert(data.subrange(off, off) =~= Seq::<u8>::empty());
    } else {
        let tail = prices.skip(1);
        assert forall|k: int| 0 <= k < tail.len() implies tail[k] == spec_u64_from_le_bytes(
            #[trigger] data.subrange((off + 8) + 8 * k, (off + 8) + 8 * k + 8),
        ) by {
            assert(tail[k] == prices[k + 1]);
            assert(data.subrange(off + 8 * (k + 1), off + 8 * (k + 1) + 8) =~= data.subrange(
                (off + 8) + 8 * k,
                (off + 8) + 8 * k + 8,
            ));
        }
        lemma_prices_bytes_of_chunks(tail, data, off + 8);
        assert(prices[0] == spec_u64_from_le_bytes(data.subrange(off + 8 * 0, off + 8 * 0 + 8)));
        assert(spec_u64_to_le_bytes(prices[0]) == data.subrange(off, off + 8));
        assert(spec_prices_bytes(prices) == spec_u64_to_le_bytes(prices[0]) + spec_prices_bytes(
            tail,
        ));
        assert(data.subrange(off, off + 8 * prices.len()) =~= data.subrange(off, off + 8)
            + data.subrange(off + 8, off + 8 * prices.len()));
        assert(data.subrange(off + 8, off + 8 * prices.len()) == data.subrange(
            off + 8,
            (off + 8) + 8 * tail.len(),
        ));
    }
}

/// Parse a registry record body stored in exactly the layout this module
/// describes (the storage-layer header already stripped). Returns the
/// record when and only when the bytes have the record shape; the
/// returned record is well formed and re-encodes to the input, byte for
/// byte.
pub fn decode_record(data: &[u8]) -> (r: Option<CollectionPrices>)
    ensures
        r is Some <==> parses_as_record(data@),
        r matches Some(rec) ==> rec.wf() && spec_record_bytes(rec) == data@,
{
    proof {
        vstd::bytes::lemma_auto_spec_u16_to_from_le_bytes();
        vstd::bytes::lemma_auto_spec_u32_to_from_le_bytes();
    }
    if data.len() < FIXED_FIELDS_LEN {
        return None;
    }
    let count = u32_from_le_bytes(slice_subrange(data, 98, 102));
    if count > u16::MAX as u32 {
        return None;
    }
    let n = count as usize;
    if data.len() != FIXED_FIELDS_LEN + PRICE_ENTRY_LEN * n {
        return None;
    }
    let size = u16_from_le_bytes(slice_subrange(data, 64, 66));
    if count != size as u32 {
        return None;
    }

    let owner = Identity { bytes: read_bytes32(data, 0) };
    let collection_address = Identity { bytes: read_bytes32(data, 32) };
    let payment_mint = Identity { bytes: read_bytes32(data, 66) };

    let mut prices: Vec<u64> = Vec::new();
    let mut i: usize = 0;
    while i < n
        invariant
            0 <= i <= n <= u16::MAX,
            data@.len() == FIXED_FIELDS_LEN + PRICE_ENTRY_LEN * n,
            prices@.len() == i,
            forall|k: int| 0 <= k < i ==> prices@[k] == spec_u64_from_le_bytes(
                #[trigger] data@.subrange(102 + 8 * k, 102 + 8 * k + 8),
            ),
        decreases n - i,
    {
        let entry = u64_from_le_bytes(slice_subrange(data, 102 + 8 * i, 102 + 8 * i + 8));
        prices.push(entry);
        i += 1;
    }

    let tree_off = 102 + PRICE_ENTRY_LEN * n;
    let merkle_tree = Identity { bytes: read_bytes32(data, tree_off) };
    let bump = data[tree_off + 32];
    let rec = CollectionPrices {
        bump,
        owner,
        collection_address,
        size,
        payment_mint,
        prices,
        merkle_tree,
    };
    proof {
        lemma_decoded_record_bytes(rec, data@, n as int);
    }
    Some(rec)
}

proof fn lemma_decoded_record_bytes(rec: CollectionPrices, data: Seq<u8>, n: int)
    requires
        n >= 0,
        data.len() == FIXED_FIELDS_LEN + PRICE_ENTRY_LEN * n,
        rec.owner.bytes@ == data.subrange(0, 32),
        rec.collection_address.bytes@ == data.subrange(32, 64),
        rec.size == spec_u16_from_le_bytes(data.subrange(64, 66)),
        rec.payment_mint.bytes@ == data.subrange(66, 98),
        n == spec_u32_from_le_bytes(data.subrange(98, 102)) as int,
        rec.prices@.len() == n,
        forall|k: int| 0 <= k < n ==> rec.prices@[k] == spec_u64_from_le_bytes(
            #[trigger] data.subrange(102 + 8 * k, 102 + 8 * k + 8),
        ),
        rec.merkle_tree.bytes@ == data.subrange(102 + 8 * n, 134 + 8 * n),
        rec.bump == data[134 + 8 * n],
    ensures
        spec_record_bytes(rec) == data,
{
    vstd::bytes::lemma_auto_spec_u16_to_from_le_bytes();
    vstd::bytes::lemma_auto_spec_u32_to_from_le_bytes();
    lemma_prices_bytes_of_chunks(rec.prices@, data, 102);
    assert(spec_u16_to_le_bytes(rec.size) == data.subrange(64, 66));
    assert(spec_u32_to_le_bytes(rec.prices@.len() as u32) == data.subrange(98, 102));
    assert(spec_prices_bytes(rec.prices@) == data.subrange(102, 102 + 8 * n));
    assert(seq![rec.bump] =~= data.subrange(134 + 8 * n, 135 + 8 * n));
    lemma_prices_bytes_len(rec.prices@);
    assert(spec_record_bytes(rec) =~= data);
}

/// Decoding accepts exactly the encodings: the encoded body of every
/// well-formed record has the record shape, so it parses back.
pub proof fn lemma_encode_parses(rec: CollectionPrices)
    requires
        rec.wf(),
    ensures
        parses_as_record(spec_record_bytes(rec)),
{
    vstd::bytes::lemma_auto_spec_u16_to_from_le_bytes();
    vstd::bytes::lemma_auto_spec_u32_to_from_le_bytes();
    lemma_prices_bytes_len(rec.prices@);
    lemma_record_bytes_len(rec);
    let data = spec_record_bytes(rec);
    assert(data.subrange(64, 66) =~= spec_u16_to_le_bytes(rec.size));
    assert(data.subrange(98, 102) =~= spec_u32_to_le_bytes(rec.prices@.len() as u32));
}

proof fn lemma_record_bytes_fields(rec: CollectionPrices)
    requires
        rec.wf(),
    ensures
        spec_record_bytes(rec).subrange(0, 32) == rec.owner.bytes@,
        spec_record_bytes(rec).subrange(32, 64) == rec.collection_address.bytes@,
        spec_record_bytes(rec).subrange(64, 66) == spec_u16_to_le_bytes(rec.size),
        spec_record_bytes(rec).subrange(66, 98) == rec.payment_mint.bytes@,
        spec_record_bytes(rec).subrange(98, 102) == spec_u32_to_le_bytes(
            rec.prices@.len() as u32,
        ),
        spec_record_bytes(rec).subrange(102, 102 + 8 * rec.prices@.len() as int)
            == spec_prices_bytes(rec.prices@),
        spec_record_bytes(rec).subrange(
            102 + 8 * rec.prices@.len() as int,
            134 + 8 * rec.prices@.len() as int,
        ) == rec.merkle_tree.bytes@,
        spec_record_bytes(rec)[134 + 8 * rec.prices@.len() as int] == rec.bump,
{
    vstd::bytes::lemma_auto_spec_u16_to_from_le_bytes();
    vstd::bytes::lemma_auto_spec_u32_to_from_le_bytes();
    lemma_prices_bytes_len(rec.prices@);
    lemma_record_bytes_len(rec);
    let data = spec_record_bytes(rec);
    let n = rec.prices@.len() as int;
    assert(data.subrange(0, 32) =~= rec.owner.bytes@);
    assert(data.subrange(32, 64) =~= rec.collection_address.bytes@);
    assert(data.subrange(64, 66) =~= spec_u16_to_le_bytes(rec.size));
    assert(data.subrange(66, 98) =~= rec.payment_mint.bytes@);
    assert(data.subrange(98, 102) =~= spec_u32_to_le_bytes(rec.prices@.len() as u32));
    assert(data.subrange(102, 102 + 8 * n) =~= spec_prices_bytes(rec.prices@));
    assert(data.subrange(102 + 8 * n, 134 + 8 * n) =~= rec.merkle_tree.bytes@);
}

proof fn lemma_prices_bytes_injective(p: Seq<u64>, q: Seq<u64>)
    requires
        p.len() == q.len(),
        spec_prices_bytes(p) == spec_prices_bytes(q),
    ensures
        p == q,
    decreases p.len(),
{
    vstd::bytes::lemma_auto_spec_u64_to_from_le_bytes();
    if p.len() == 0 {
        assert(p =~= q);
    } else {
        lemma_prices_bytes_len(p.skip(1));
        lemma_prices_bytes_len(q.skip(1));
        assert(spec_prices_bytes(p).subrange(0, 8) =~= spec_u64_to_le_bytes(p[0]));
        assert(spec_prices_bytes(q).subrange(0, 8) =~= spec_u64_to_le_bytes(q[0]));
        assert(p[0] == q[0]);
        assert(spec_prices_bytes(p).subrange(8, spec_prices_bytes(p).len() as int)
            =~= spec_prices_bytes(p.skip(1)));
        assert(spec_prices_bytes(q).subrange(8, spec_prices_bytes(q).len() as int)
            =~= spec_prices_bytes(q.skip(1)));
        lemma_prices_bytes_injective(p.skip(1), q.skip(1));
        assert forall|i: int| 0 <= i < p.len() implies p[i] == q[i] by {
            if i > 0 {
                assert(p.skip(1)[i - 1] == p[i]);
                assert(q.skip(1)[i - 1] == q[i]);
            }
        }
        assert(p =~= q);
    }
}

/// The layout is unambiguous: two well-formed records with the same
/// encoded body agree on every field, so together with
/// `lemma_encode_parses` and the contract of `decode_record`, parsing an
/// encoded record gives back exactly the record that was stored.
pub proof fn lemma_record_bytes_injective(a: CollectionPrices, b: CollectionPrices)
    requires
        a.wf(),
        b.wf(),
        spec_record_bytes(a) == spec_record_bytes(b),
    ensures
        a.owner == b.owner,
        a.collection_address == b.collection_address,
        a.size == b.size,
        a.payment_mint == b.payment_mint,
        a.prices@ == b.prices@,
        a.merkle_tree == b.merkle_tree,
        a.bump == b.bump,
{
    vstd::bytes::lemma_auto_spec_u16_to_from_le_bytes();
    vstd::bytes::lemma_auto_spec_u32_to_from_le_bytes();
    lemma_record_bytes_len(a);
    lemma_record_bytes_len(b);
    assert(a.prices@.len() == b.prices@.len());
    lemma_record_bytes_fields(a);
    lemma_record_bytes_fields(b);
    crate::identity::lemma_identity_eq_is_byte_eq(a.owner, b.owner);
    crate::identity::lemma_identity_eq_is_byte_eq(a.collection_address, b.collection_address);
    crate::identity::lemma_identity_eq_is_byte_eq(a.payment_mint, b.payment_mint);
    crate::identity::lemma_identity_eq_is_byte_eq(a.merkle_tree, b.merkle_tree);
    lemma_prices_bytes_injective(a.prices@, b.prices@);
}

} // verus!
