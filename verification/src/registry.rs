//! The price-registry entity and its lifecycle: create, read, update.

use vstd::prelude::*;
use crate::addressing::{derived_address, derive_prices_address, prices_seeds};
use crate::auth::{check_owner, is_authorized};
use crate::errors::ErrorCode;
use crate::events::PriceUpdateEvent;
use crate::identity::Identity;
use crate::layout;

verus! {

/// Exclusive upper bound on every stored price, in smallest-denomination
/// units.
pub const PRICE_CEILING: u64 = 1_000_000_000_000_000;

/// The per-collection price-registry record.
#[derive(Debug)]
pub struct CollectionPrices {
    /// Disambiguation nonce produced when the record's address was
    /// derived; stored for later re-validation.
    pub bump: u8,
    /// Identity permitted to mutate; set once at creation.
    pub owner: Identity,
    /// Identity of the collection this registry prices; an addressing seed.
    pub collection_address: Identity,
    /// Declared count of price entries; fixed at creation.
    pub size: u16,
    /// Denomination the prices are expressed in; all-zero means unset.
    pub payment_mint: Identity,
    /// The price list; its length always equals `size`.
    pub prices: Vec<u64>,
    /// The currently active external tree resource; all-zero before one
    /// exists; mutable via rotation.
    pub merkle_tree: Identity,
}

impl CollectionPrices {
    /// Structural invariant: the price list's length equals the declared
    /// size. Established at creation and preserved by every mutation.
    pub open spec fn wf(self) -> bool {
        self.prices@.len() == self.size
    }

    /// Storage bytes the record body occupies when it holds `prices_len`
    /// prices, excluding the storage-layer header.
    pub fn dynamic_size(prices_len: usize) -> (r: usize)
        requires
            prices_len <= u16::MAX as usize,
        ensures
            r == layout::spec_record_size(prices_len as int),
    {
        layout::FIXED_FIELDS_LEN + layout::PRICE_ENTRY_LEN * prices_len
    }
}

/// Inputs of `initialize_collection`: the paying signer who becomes the
/// owner, and the collection the registry will price.
pub struct InitializeCollection {
    pub owner: Identity,
    pub collection_address: Identity,
}

/// Inputs of `update_prices`: the registry record loaded at the derived
/// address, the proven signer, and the collection used for derivation.
pub struct UpdatePrices {
    pub collection_prices: CollectionPrices,
    pub owner: Identity,
    pub collection_address: Identity,
}

/// Inputs of `fetch_prices`: the record at the derived address, if one
/// exists there.
pub struct FetchPrices {
    pub collection_prices: Option<CollectionPrices>,
    pub collection_address: Identity,
}

/// Scan of a candidate price list, in order: the first entry that is
/// zero rejects the list as `InvalidPrice`; the first entry at or above
/// the ceiling rejects it as `PriceTooHigh`; otherwise it is accepted.
pub open spec fn price_check(prices: Seq<u64>) -> Result<(), ErrorCode>
    decreases prices.len(),
{
    if prices.len() == 0 {
        Ok(())
    } else if prices[0] == 0 {
        Err(ErrorCode::InvalidPrice)
    } else if prices[0] >= PRICE_CEILING {
        Err(ErrorCode::PriceTooHigh)
    } else {
        price_check(prices.skip(1))
    }
}

/// Every entry lies strictly between zero and the ceiling.
pub open spec fn all_prices_valid(prices: Seq<u64>) -> bool {
    forall|i: int| 0 <= i < prices.len() ==> 0 < #[trigger] prices[i] < PRICE_CEILING
}

/// The scan accepts exactly the lists whose entries all lie strictly
/// between zero and the ceiling; a single offending entry anywhere
/// rejects the whole list.
pub proof fn lemma_price_check_ok(prices: Seq<u64>)
    ensures
        price_check(prices) is Ok <==> all_prices_valid(prices),
    decreases prices.len(),
{
    if prices.len() == 0 {
    } else if prices[0] == 0 {
    } else if prices[0] >= PRICE_CEILING {
    } else {
        lemma_price_check_ok(prices.skip(1));
        assert forall|i: int| 0 <= i < prices.skip(1).len() implies prices.skip(1)[i] == prices[i
            + 1] by {}
        if all_prices_valid(prices.skip(1)) {
            assert forall|i: int| 0 <= i < prices.len() implies 0 < #[trigger] prices[i]
                < PRICE_CEILING by {
                if i > 0 {
                    assert(prices.skip(1)[i - 1] == prices[i]);
                }
            }
        }
    }
}

/// Reject a candidate price list whose first offending entry is zero
/// (`InvalidPrice`) or at or above the ceiling (`PriceTooHigh`).
pub fn validate_prices(prices: &Vec<u64>) -> (r: Result<(), ErrorCode>)
    ensures
        r == price_check(prices@),
{
    let mut i: usize = 0;
    proof {
        assert(prices@.skip(0) =~= prices@);
    }
    while i < prices.len()
        invariant
            0 <= i <= prices@.len(),
            price_check(prices@) == price_check(prices@.skip(i as int)),
        decreases prices@.len() - i,
    {
        let p = prices[i];
        proof {
            assert(prices@.skip(i as int)[0] == prices@[i as int]);
        }
        if p == 0 {
            return Err(ErrorCode::InvalidPrice);
        }
        if p >= PRICE_CEILING {
            return Err(ErrorCode::PriceTooHigh);
        }
        proof {
            assert(prices@.skip(i as int).skip(1) =~= prices@.skip(i as int + 1));
        }
        i += 1;
    }
    proof {
        assert(prices@.skip(i as int) =~= Seq::<u64>::empty());
    }
    Ok(())
}

fn clone_prices(v: &Vec<u64>) -> (r: Vec<u64>)
    ensures
        r@ == v@,
{
    let mut r: Vec<u64> = Vec::new();
    let mut i: usize = 0;
    while i < v.len()
        invariant
            0 <= i <= v@.len(),
            r@ == v@.subrange(0, i as int),
        decreases v@.len() - i,
    {
        r.push(v[i]);
        proof {
            assert(r@ =~= v@.subrange(0, i as int + 1));
        }
        i += 1;
    }
    proof {
        assert(r@ =~= v@);
    }
    r
}

/// Which outcome creation owes its inputs: a length mismatch is
/// rejected, an underivable record address is surfaced, anything else
/// succeeds. Price bounds are deliberately not enforced here: creation
/// accepts any values, only updates enforce the bounds.
pub open spec fn create_check(
    size: u16,
    prices: Seq<u64>,
    collection: Identity,
    program_id: Seq<u8>,
) -> Result<(), ErrorCode> {
    if prices.len() != size {
        Err(ErrorCode::SizeMismatch)
    } else if derived_address(prices_seeds(collection), program_id) is None {
        Err(ErrorCode::DerivationFailure)
    } else {
        Ok(())
    }
}

/// What a record returned by a successful creation looks like, next to
/// the derivation facts stated by `initialize_collection` itself.
pub open spec fn created_from(
    rec: CollectionPrices,
    owner: Identity,
    collection: Identity,
    payment_mint: Identity,
    size: u16,
    prices: Seq<u64>,
) -> bool {
    &&& rec.owner == owner
    &&& rec.collection_address == collection
    &&& rec.size == size
    &&& rec.payment_mint == payment_mint
    &&& rec.prices@ == prices
    &&& rec.merkle_tree.is_placeholder()
}

/// What a read returns of a loaded record: its declared size, its
/// payment mint, and its full price sequence.
pub open spec fn read_result(rec: CollectionPrices) -> (u16, Identity, Seq<u64>) {
    (rec.size, rec.payment_mint, rec.prices@)
}

/// Create the registry record of a collection. Fails with
/// `SizeMismatch` when the price list's length is not the declared
/// size, in which case no record comes into being. On success the
/// returned address and stored bump are exactly the record's own
/// derivation, the caller becomes the immutable owner, and the prices
/// are stored unmodified. (A record already occupying the derived
/// address is rejected by the storage layer's uniqueness guarantee,
/// outside this core.)
pub fn initialize_collection(
    ctx: &InitializeCollection,
    payment_mint: Identity,
    size: u16,
    prices: Vec<u64>,
    program_id: &Identity,
) -> (r: Result<(Identity, CollectionPrices), ErrorCode>)
    ensures
        match r {
            Ok(created) => {
                &&& create_check(size, prices@, ctx.collection_address, program_id.bytes@) is Ok
                &&& created_from(
                    created.1,
                    ctx.owner,
                    ctx.collection_address,
                    payment_mint,
                    size,
                    prices@,
                )
                &&& created.1.wf()
                &&& derived_address(
                    prices_seeds(ctx.collection_address),
                    program_id.bytes@,
                ) is Some
                &&& created.0.bytes@ == derived_address(
                    prices_seeds(ctx.collection_address),
                    program_id.bytes@,
                ).unwrap().0
                &&& created.1.bump == derived_address(
                    prices_seeds(ctx.collection_address),
                    program_id.bytes@,
                ).unwrap().1
            },
            Err(e) => Err::<(), ErrorCode>(e) == create_check(
                size,
                prices@,
                ctx.collection_address,
                program_id.bytes@,
            ),
        },
{
    if prices.len() != size as usize {
        return Err(ErrorCode::SizeMismatch);
    }
    match derive_prices_address(&ctx.collection_address, program_id) {
        None => Err(ErrorCode::DerivationFailure),
        Some((address, bump)) => {
            let record = CollectionPrices {
                bump,
                owner: ctx.owner,
                collection_address: ctx.collection_address,
                size,
                payment_mint,
                prices,
                merkle_tree: Identity::default(),
            };
            Ok((address, record))
        },
    }
}

/// Read a collection's registry: its declared size, payment mint and
/// price list, exactly as stored. World-readable, no authorization.
/// Fails with `NotFound` when no record exists at the derived address.
pub fn fetch_prices(ctx: &FetchPrices) -> (r: Result<(u16, Identity, Vec<u64>), ErrorCode>)
    ensures
        match ctx.collection_prices {
            Some(rec) => {
                &&& r is Ok
                &&& (r.unwrap().0, r.unwrap().1, r.unwrap().2@) == read_result(rec)
            },
            None => r == Err::<(u16, Identity, Vec<u64>), ErrorCode>(ErrorCode::NotFound),
        },
{
    match &ctx.collection_prices {
        Some(rec) => Ok((rec.size, rec.payment_mint, clone_prices(&rec.prices))),
        None => Err(ErrorCode::NotFound),
    }
}

/// Which outcome an update owes its inputs, checked in order: the signer
/// must be the stored owner (`Unauthorized`), the record's stored bump
/// must match the one recomputed from the current derivation
/// (`DerivationFailure` when none exists, `InvalidBump` on disagreement),
/// the new list must have the registry's fixed width (`SizeMismatch`),
/// and every new price must pass the bounds scan.
pub open spec fn update_check(
    rec: CollectionPrices,
    signer: Identity,
    collection: Identity,
    program_id: Seq<u8>,
    new_prices: Seq<u64>,
) -> Result<(), ErrorCode> {
    if !is_authorized(signer, rec.owner) {
        Err(ErrorCode::Unauthorized)
    } else if derived_address(prices_seeds(collection), program_id) is None {
        Err(ErrorCode::DerivationFailure)
    } else if derived_address(prices_seeds(collection), program_id).unwrap().1 != rec.bump {
        Err(ErrorCode::InvalidBump)
    } else if new_prices.len() != rec.size {
        Err(ErrorCode::SizeMismatch)
    } else {
        price_check(new_prices)
    }
}

/// Replace a registry's prices, all-or-nothing. Only the stored owner
/// may update; the record must pass bump re-validation; the new list
/// must have the registry's fixed width and every entry must lie
/// strictly between zero and the ceiling. On success exactly the price
/// field changes and the returned event records the mutation; on any
/// failure the record is left untouched.
pub fn update_prices(
    ctx: &mut UpdatePrices,
    new_prices: Vec<u64>,
    program_id: &Identity,
    timestamp: i64,
) -> (r: Result<PriceUpdateEvent, ErrorCode>)
    ensures
        match r {
            Ok(ev) => {
                &&& update_check(
                    old(ctx).collection_prices,
                    old(ctx).owner,
                    old(ctx).collection_address,
                    program_id.bytes@,
                    new_prices@,
                ) is Ok
                &&& final(ctx).collection_prices.prices@ == new_prices@
                &&& final(ctx).collection_prices.bump == old(ctx).collection_prices.bump
                &&& final(ctx).collection_prices.owner == old(ctx).collection_prices.owner
                &&& final(ctx).collection_prices.collection_address == old(
                    ctx,
                ).collection_prices.collection_address
                &&& final(ctx).collection_prices.size == old(ctx).collection_prices.size
                &&& final(ctx).collection_prices.payment_mint == old(
                    ctx,
                ).collection_prices.payment_mint
                &&& final(ctx).collection_prices.merkle_tree == old(
                    ctx,
                ).collection_prices.merkle_tree
                &&& final(ctx).collection_prices.wf()
                &&& final(ctx).owner == old(ctx).owner
                &&& final(ctx).collection_address == old(ctx).collection_address
                &&& ev.collection == old(ctx).collection_address
                &&& ev.owner == old(ctx).owner
                &&& ev.timestamp == timestamp
            },
            Err(e) => {
                &&& Err::<(), ErrorCode>(e) == update_check(
                    old(ctx).collection_prices,
                    old(ctx).owner,
                    old(ctx).collection_address,
                    program_id.bytes@,
                    new_prices@,
                )
                &&& *final(ctx) == *old(ctx)
            },
        },
{
    if check_owner(&ctx.owner, &ctx.collection_prices.owner).is_err() {
        return Err(ErrorCode::Unauthorized);
    }
    let derived = derive_prices_address(&ctx.collection_address, program_id);
    match derived {
        None => Err(ErrorCode::DerivationFailure),
        Some((_, expected_bump)) => {
            if expected_bump != ctx.collection_prices.bump {
                return Err(ErrorCode::InvalidBump);
            }
            if new_prices.len() != ctx.collection_prices.size as usize {
                return Err(ErrorCode::SizeMismatch);
            }
            match validate_prices(&new_prices) {
                Err(e) => Err(e),
                Ok(()) => {
                    ctx.collection_prices.prices = new_prices;
                    Ok(PriceUpdateEvent::new(ctx.collection_address, ctx.owner, timestamp))
                },
            }
        },
    }
}

/// Creating a registry and then reading it returns exactly what was
/// stored: the declared size, the payment mint, and the unmodified
/// price sequence.
pub proof fn lemma_create_then_read(
    rec: CollectionPrices,
    owner: Identity,
    collection: Identity,
    payment_mint: Identity,
    size: u16,
    prices: Seq<u64>,
)
    requires
        created_from(rec, owner, collection, payment_mint, size, prices),
    ensures
        read_result(rec) == (size, payment_mint, prices),
{
}

/// An update signed by anyone but the stored owner is always rejected
/// as `Unauthorized`, whatever else the request holds; the exec
/// contract of `update_prices` then leaves the record untouched.
pub proof fn lemma_update_non_owner_rejected(
    rec: CollectionPrices,
    signer: Identity,
    collection: Identity,
    program_id: Seq<u8>,
    new_prices: Seq<u64>,
)
    requires
        signer != rec.owner,
    ensures
        update_check(rec, signer, collection, program_id, new_prices) == Err::<
            (),
            ErrorCode,
        >(ErrorCode::Unauthorized),
{
}

/// Once the owner and bump gates pass, an update whose price list does
/// not have the registry's fixed width is always rejected as
/// `SizeMismatch`.
pub proof fn lemma_update_wrong_length_rejected(
    rec: CollectionPrices,
    signer: Identity,
    collection: Identity,
    program_id: Seq<u8>,
    new_prices: Seq<u64>,
)
    requires
        signer == rec.owner,
        derived_address(prices_seeds(collection), program_id) is Some,
        derived_address(prices_seeds(collection), program_id).unwrap().1 == rec.bump,
        new_prices.len() != rec.size,
    ensures
        update_check(rec, signer, collection, program_id, new_prices) == Err::<
            (),
            ErrorCode,
        >(ErrorCode::SizeMismatch),
{
}

/// An update carrying any zero or any at-or-above-ceiling price is
/// rejected even when every other entry is valid: the whole list is
/// refused, and the exec contract of `update_prices` then guarantees no
/// price was modified.
pub proof fn lemma_update_bad_price_rejected(
    rec: CollectionPrices,
    signer: Identity,
    collection: Identity,
    program_id: Seq<u8>,
    new_prices: Seq<u64>,
    offender: int,
)
    requires
        0 <= offender < new_prices.len(),
        new_prices[offender] == 0 || new_prices[offender] >= PRICE_CEILING,
    ensures
        update_check(rec, signer, collection, program_id, new_prices) is Err,
{
    lemma_price_check_ok(new_prices);
}

} // verus!
