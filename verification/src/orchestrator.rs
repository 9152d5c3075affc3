//! Orchestration of the external compressed-tree resource.
//!
//! The external tree program is invoked, never reimplemented. This
//! module gates each orchestration on the registry owner, re-derives the
//! program-controlled signing authority at call time (a key-less
//! identity only this program can sign for), validates externally
//! supplied tree configurations against that authority, and commits a
//! rotation only together with a fresh index counter. The host submits
//! the planned call and aborts the whole atomic unit when the external
//! program fails.

use vstd::prelude::*;
use crate::addressing::{
    derive_mint_authority, derive_tree_index_address, derived_address, mint_authority_seeds,
    tree_index_seeds,
};
use crate::auth::{check_owner, is_authorized};
use crate::errors::ErrorCode;
use crate::identity::Identity;
use crate::registry::CollectionPrices;

verus! {

/// The tree delegate recorded inside an externally supplied tree
/// configuration, when the bytes parse as one: a function of the bytes
/// alone.
pub uninterp spec fn tree_config_delegate(data: Seq<u8>) -> Option<Seq<u8>>;

/// Relies on `mpl_bubblegum::accounts::TreeConfig::from_bytes`: a
/// deterministic parse of the configuration bytes, whose `tree_delegate`
/// field is a 32-byte identity. Parse failures surface as `None`.
#[verifier::external_body]
fn parse_tree_delegate(data: &Vec<u8>) -> (r: Option<Identity>)
    ensures
        r is Some <==> tree_config_delegate(data@) is Some,
        r is Some ==> r.unwrap().bytes@ == tree_config_delegate(data@).unwrap(),
{
    match mpl_bubblegum::accounts::TreeConfig::from_bytes(data.as_slice()) {
        Ok(config) => Some(Identity { bytes: config.tree_delegate.to_bytes() }),
        Err(_) => None,
    }
}

/// Which outcome validating an external tree configuration owes: the
/// expected signing authority must be derivable, the bytes must parse
/// as a configuration (`InvalidTreeConfig`), and the configuration's
/// delegate must be exactly the derived authority
/// (`InvalidMintAuthority`).
pub open spec fn tree_authority_check(
    config_data: Seq<u8>,
    collection: Identity,
    program_id: Seq<u8>,
) -> Result<(), ErrorCode> {
    if derived_address(mint_authority_seeds(collection), program_id) is None {
        Err(ErrorCode::DerivationFailure)
    } else if tree_config_delegate(config_data) is None {
        Err(ErrorCode::InvalidTreeConfig)
    } else if tree_config_delegate(config_data).unwrap() != derived_address(
        mint_authority_seeds(collection),
        program_id,
    ).unwrap().0 {
        Err(ErrorCode::InvalidMintAuthority)
    } else {
        Ok(())
    }
}

/// Before trusting an externally supplied tree configuration, recompute
/// the collection's expected signing authority and compare it to the
/// delegate recorded inside the configuration.
pub fn verify_tree_authority(
    config_data: &Vec<u8>,
    collection: &Identity,
    program_id: &Identity,
) -> (r: Result<(), ErrorCode>)
    ensures
        r == tree_authority_check(config_data@, *collection, program_id.bytes@),
{
    match derive_mint_authority(collection, program_id) {
        None => Err(ErrorCode::DerivationFailure),
        Some((expected, _bump)) => {
            match parse_tree_delegate(config_data) {
                None => Err(ErrorCode::InvalidTreeConfig),
                Some(delegate) => {
                    if delegate == expected {
                        Ok(())
                    } else {
                        Err(ErrorCode::InvalidMintAuthority)
                    }
                },
            }
        },
    }
}

/// Inputs of `set_merkle_tree`: the registry record, the proven signer,
/// the collection used for derivation, and the raw bytes of the external
/// tree's own configuration record.
pub struct SetMerkleTree {
    pub collection_prices: CollectionPrices,
    pub owner: Identity,
    pub collection_address: Identity,
    pub tree_config_data: Vec<u8>,
}

/// Which outcome `set_merkle_tree` owes: first the configuration
/// validation, then the owner gate.
pub open spec fn set_tree_check(
    rec: CollectionPrices,
    signer: Identity,
    collection: Identity,
    program_id: Seq<u8>,
    config_data: Seq<u8>,
) -> Result<(), ErrorCode> {
    if tree_authority_check(config_data, collection, program_id) is Err {
        tree_authority_check(config_data, collection, program_id)
    } else if !is_authorized(signer, rec.owner) {
        Err(ErrorCode::Unauthorized)
    } else {
        Ok(())
    }
}

/// Adopt an externally created tree as the registry's active tree. The
/// supplied configuration must validate against the collection's derived
/// signing authority, and only the stored owner may adopt. On success
/// exactly the tree address changes; on any failure nothing does.
pub fn set_merkle_tree(ctx: &mut SetMerkleTree, merkle_tree: Identity, program_id: &Identity) -> (r:
    Result<(), ErrorCode>)
    ensures
        match r {
            Ok(()) => {
                &&& set_tree_check(
                    old(ctx).collection_prices,
                    old(ctx).owner,
                    old(ctx).collection_address,
                    program_id.bytes@,
                    old(ctx).tree_config_data@,
                ) is Ok
                &&& final(ctx).collection_prices.merkle_tree == merkle_tree
                &&& final(ctx).collection_prices.bump == old(ctx).collection_prices.bump
                &&& final(ctx).collection_prices.owner == old(ctx).collection_prices.owner
                &&& final(ctx).collection_prices.collection_address == old(
                    ctx,
                ).collection_prices.collection_address
                &&& final(ctx).collection_prices.size == old(ctx).collection_prices.size
                &&& final(ctx).collection_prices.payment_mint == old(
                    ctx,
                ).collection_prices.payment_mint
                &&& final(ctx).collection_prices.prices@ == old(ctx).collection_prices.prices@
                &&& final(ctx).owner == old(ctx).owner
                &&& final(ctx).collection_address == old(ctx).collection_address
                &&& final(ctx).tree_config_data@ == old(ctx).tree_config_data@
            },
            Err(e) => {
                &&& Err::<(), ErrorCode>(e) == set_tree_check(
                    old(ctx).collection_prices,
                    old(ctx).owner,
                    old(ctx).collection_address,
                    program_id.bytes@,
                    old(ctx).tree_config_data@,
                )
                &&& *final(ctx) == *old(ctx)
            },
        },
{
    match verify_tree_authority(&ctx.tree_config_data, &ctx.collection_address, program_id) {
        Err(e) => Err(e),
        Ok(()) => {
            if check_owner(&ctx.owner, &ctx.collection_prices.owner).is_err() {
                return Err(ErrorCode::Unauthorized);
            }
            ctx.collection_prices.merkle_tree = merkle_tree;
            Ok(())
        },
    }
}

/// The cross-program call the host must submit to the external tree
/// program, exactly as planned: the derived signing authority acts as
/// the tree creator (re-derivable only inside this same atomic call, so
/// it is never persisted), the human owner pays, and the tree is
/// created private with the requested dimensions.
#[derive(Clone, Copy, Debug)]
pub struct TreeCpiRequest {
    /// The program-controlled signing authority, acting as tree creator.
    pub tree_creator: Identity,
    /// The authority's derivation nonce, needed to sign as it.
    pub authority_bump: u8,
    /// The human owner, paying for the new resource.
    pub payer: Identity,
    pub max_depth: u32,
    pub max_buffer_size: u32,
    /// Visibility flag handed to the external program; always private.
    pub public: bool,
}

/// The per-tree index counter record. The core only seeds it to zero;
/// advancing it is the external tree program's responsibility.
#[derive(Clone, Copy, Debug, PartialEq, Eq, Structural)]
pub struct TreeIndexCounter {
    pub current_index: u64,
}

impl TreeIndexCounter {
    /// A fresh counter, seeded to zero.
    pub fn new() -> (c: TreeIndexCounter)
        ensures
            c.current_index == 0,
    {
        TreeIndexCounter { current_index: 0 }
    }
}

/// Which outcome planning a tree creation owes: the owner gate, then the
/// derivability of the signing authority.
pub open spec fn create_tree_check(
    rec: CollectionPrices,
    signer: Identity,
    collection: Identity,
    program_id: Seq<u8>,
) -> Result<(), ErrorCode> {
    if !is_authorized(signer, rec.owner) {
        Err(ErrorCode::Unauthorized)
    } else if derived_address(mint_authority_seeds(collection), program_id) is None {
        Err(ErrorCode::DerivationFailure)
    } else {
        Ok(())
    }
}

/// Plan the owner-gated creation of a new external tree: re-derive the
/// collection's signing authority and hand the host the exact call to
/// submit. The external program's own failure aborts the atomic unit and
/// is passed through opaquely as `ExternalTreeError` by the host.
pub fn create_tree(
    rec: &CollectionPrices,
    signer: &Identity,
    collection_address: &Identity,
    program_id: &Identity,
    max_depth: u32,
    max_buffer_size: u32,
) -> (r: Result<TreeCpiRequest, ErrorCode>)
    ensures
        match r {
            Ok(req) => {
                &&& create_tree_check(*rec, *signer, *collection_address, program_id.bytes@) is Ok
                &&& derived_address(
                    mint_authority_seeds(*collection_address),
                    program_id.bytes@,
                ) is Some
                &&& req.tree_creator.bytes@ == derived_address(
                    mint_authority_seeds(*collection_address),
                    program_id.bytes@,
                ).unwrap().0
                &&& req.authority_bump == derived_address(
                    mint_authority_seeds(*collection_address),
                    program_id.bytes@,
                ).unwrap().1
                &&& req.payer == rec.owner
                &&& req.max_depth == max_depth
                &&& req.max_buffer_size == max_buffer_size
                &&& req.public == false
            },
            Err(e) => Err::<(), ErrorCode>(e) == create_tree_check(
                *rec,
                *signer,
                *collection_address,
                program_id.bytes@,
            ),
        },
{
    if check_owner(signer, &rec.owner).is_err() {
        return Err(ErrorCode::Unauthorized);
    }
    match derive_mint_authority(collection_address, program_id) {
        None => Err(ErrorCode::DerivationFailure),
        Some((authority, bump)) => Ok(
            TreeCpiRequest {
                tree_creator: authority,
                authority_bump: bump,
                payer: rec.owner,
                max_depth,
                max_buffer_size,
                public: false,
            },
        ),
    }
}

/// Which outcome committing a rotation owes: the owner gate, then the
/// derivability of the new tree's counter address.
pub open spec fn rotate_tree_check(
    rec: CollectionPrices,
    signer: Identity,
    new_tree: Identity,
    program_id: Seq<u8>,
) -> Result<(), ErrorCode> {
    if !is_authorized(signer, rec.owner) {
        Err(ErrorCode::Unauthorized)
    } else if derived_address(tree_index_seeds(new_tree), program_id) is None {
        Err(ErrorCode::DerivationFailure)
    } else {
        Ok(())
    }
}

/// Commit a rotation to a freshly created tree: owner-gated; derives the
/// new tree's counter address, seeds a fresh counter to zero, and only
/// then overwrites the registry's tree address. The previous tree is
/// abandoned, not destroyed. On failure the registry is left untouched.
pub fn rotate_tree(
    rec: &mut CollectionPrices,
    signer: &Identity,
    new_tree: &Identity,
    program_id: &Identity,
) -> (r: Result<(Identity, TreeIndexCounter), ErrorCode>)
    ensures
        match r {
            Ok(out) => {
                &&& rotate_tree_check(*old(rec), *signer, *new_tree, program_id.bytes@) is Ok
                &&& derived_address(tree_index_seeds(*new_tree), program_id.bytes@) is Some
                &&& out.0.bytes@ == derived_address(
                    tree_index_seeds(*new_tree),
                    program_id.bytes@,
                ).unwrap().0
                &&& out.1.current_index == 0
                &&& final(rec).merkle_tree == *new_tree
                &&& final(rec).bump == old(rec).bump
                &&& final(rec).owner == old(rec).owner
                &&& final(rec).collection_address == old(rec).collection_address
                &&& final(rec).size == old(rec).size
                &&& final(rec).payment_mint == old(rec).payment_mint
                &&& final(rec).prices@ == old(rec).prices@
            },
            Err(e) => {
                &&& Err::<(), ErrorCode>(e) == rotate_tree_check(
                    *old(rec),
                    *signer,
                    *new_tree,
                    program_id.bytes@,
                )
                &&& *final(rec) == *old(rec)
            },
        },
{
    if check_owner(signer, &rec.owner).is_err() {
        return Err(ErrorCode::Unauthorized);
    }
    match derive_tree_index_address(new_tree, program_id) {
        None => Err(ErrorCode::DerivationFailure),
        Some((counter_address, _bump)) => {
            let counter = TreeIndexCounter::new();
            rec.merkle_tree = *new_tree;
            Ok((counter_address, counter))
        },
    }
}

} // verus!
