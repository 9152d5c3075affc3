//! Deterministic seeded addressing.
//!
//! Every named record of this program lives at an address derived from an
//! ordered pair of byte seeds (a tag plus a 32-byte identity) and the
//! program's own identity, together with a one-byte disambiguation nonce
//! (the "bump"). The derivation itself is the host platform's
//! hash-and-search procedure; this module names its outcome and exposes
//! the three derivations the program uses.

use vstd::prelude::*;
use crate::identity::Identity;

verus! {

/// The outcome of the platform's seeded address derivation for the given
/// ordered seeds and program identity: the 32-byte address and the bump
/// nonce, or nothing when no bump byte yields a usable address. The
/// outcome depends on the seeds and the program identity alone.
pub uninterp spec fn derived_address(seeds: Seq<Seq<u8>>, program_id: Seq<u8>) -> Option<(Seq<u8>, u8)>;

/// Relies on `anchor_lang::prelude::Pubkey::try_find_program_address`:
/// a deterministic function of the seed bytes and the program identity,
/// returning the first bump from 255 downward that lands off-curve, or
/// `None` when no bump works. It never panics.
#[verifier::external_body]
fn try_find_derived(seed_tag: &Vec<u8>, seed_key: &Identity, program_id: &Identity) -> (r: Option<
    (Identity, u8),
>)
    ensures
        r is Some <==> derived_address(
            seq![seed_tag@, seed_key.bytes@],
            program_id.bytes@,
        ) is Some,
        r is Some ==> (r.unwrap().0.bytes@, r.unwrap().1) == derived_address(
            seq![seed_tag@, seed_key.bytes@],
            program_id.bytes@,
        ).unwrap(),
{
    let seeds: [&[u8]; 2] = [seed_tag.as_slice(), &seed_key.bytes];
    let program = anchor_lang::prelude::Pubkey::new_from_array(program_id.bytes);
    anchor_lang::prelude::Pubkey::try_find_program_address(&seeds, &program).map(
        |found: (anchor_lang::prelude::Pubkey, u8)|
            (Identity { bytes: found.0.to_bytes() }, found.1),
    )
}

/// Seed tag of the price-registry record: the bytes of `"prices"`.
pub open spec fn spec_seed_prices() -> Seq<u8> {
    seq![112u8, 114u8, 105u8, 99u8, 101u8, 115u8]
}

/// Seed tag of the program-controlled signing authority: the bytes of
/// `"mint_authority"`.
pub open spec fn spec_seed_mint_authority() -> Seq<u8> {
    seq![109u8, 105u8, 110u8, 116u8, 95u8, 97u8, 117u8, 116u8, 104u8, 111u8, 114u8, 105u8, 116u8, 121u8]
}

/// Seed tag of a tree's index-counter record: the bytes of `"tree_index"`.
pub open spec fn spec_seed_tree_index() -> Seq<u8> {
    seq![116u8, 114u8, 101u8, 101u8, 95u8, 105u8, 110u8, 100u8, 101u8, 120u8]
}

fn seed_prices() -> (v: Vec<u8>)
    ensures
        v@ == spec_seed_prices(),
{
    let v: Vec<u8> = vec![112u8, 114u8, 105u8, 99u8, 101u8, 115u8];
    proof {
        assert(v@ =~= spec_seed_prices());
    }
    v
}

fn seed_mint_authority() -> (v: Vec<u8>)
    ensures
        v@ == spec_seed_mint_authority(),
{
    let v: Vec<u8> = vec![
        109u8, 105u8, 110u8, 116u8, 95u8, 97u8, 117u8, 116u8, 104u8, 111u8, 114u8, 105u8, 116u8,
        121u8,
    ];
    proof {
        assert(v@ =~= spec_seed_mint_authority());
    }
    v
}

fn seed_tree_index() -> (v: Vec<u8>)
    ensures
        v@ == spec_seed_tree_index(),
{
    let v: Vec<u8> = vec![116u8, 114u8, 101u8, 101u8, 95u8, 105u8, 110u8, 100u8, 101u8, 120u8];
    proof {
        assert(v@ =~= spec_seed_tree_index());
    }
    v
}

/// The seed pair addressing a collection's price registry.
pub open spec fn prices_seeds(collection: Identity) -> Seq<Seq<u8>> {
    seq![spec_seed_prices(), collection.bytes@]
}

/// The seed pair addressing a collection's derived signing authority.
pub open spec fn mint_authority_seeds(collection: Identity) -> Seq<Seq<u8>> {
    seq![spec_seed_mint_authority(), collection.bytes@]
}

/// The seed pair addressing a tree's index-counter record.
pub open spec fn tree_index_seeds(tree: Identity) -> Seq<Seq<u8>> {
    seq![spec_seed_tree_index(), tree.bytes@]
}

/// Derive the address and bump of the price registry of `collection`.
pub fn derive_prices_address(collection: &Identity, program_id: &Identity) -> (r: Option<
    (Identity, u8),
>)
    ensures
        r is Some <==> derived_address(prices_seeds(*collection), program_id.bytes@) is Some,
        r is Some ==> (r.unwrap().0.bytes@, r.unwrap().1) == derived_address(
            prices_seeds(*collection),
            program_id.bytes@,
        ).unwrap(),
{
    let tag = seed_prices();
    let r = try_find_derived(&tag, collection, program_id);
    proof {
        assert(seq![tag@, collection.bytes@] =~= prices_seeds(*collection));
    }
    r
}

/// Derive the address and bump of the program-controlled signing
/// authority of `collection`.
pub fn derive_mint_authority(collection: &Identity, program_id: &Identity) -> (r: Option<
    (Identity, u8),
>)
    ensures
        r is Some <==> derived_address(
            mint_authority_seeds(*collection),
            program_id.bytes@,
        ) is Some,
        r is Some ==> (r.unwrap().0.bytes@, r.unwrap().1) == derived_address(
            mint_authority_seeds(*collection),
            program_id.bytes@,
        ).unwrap(),
{
    let tag = seed_mint_authority();
    let r = try_find_derived(&tag, collection, program_id);
    proof {
        assert(seq![tag@, collection.bytes@] =~= mint_authority_seeds(*collection));
    }
    r
}

/// Derive the address and bump of the index-counter record of `tree`.
pub fn derive_tree_index_address(tree: &Identity, program_id: &Identity) -> (r: Option<
    (Identity, u8),
>)
    ensures
        r is Some <==> derived_address(tree_index_seeds(*tree), program_id.bytes@) is Some,
        r is Some ==> (r.unwrap().0.bytes@, r.unwrap().1) == derived_address(
            tree_index_seeds(*tree),
            program_id.bytes@,
        ).unwrap(),
{
    let tag = seed_tree_index();
    let r = try_find_derived(&tag, tree, program_id);
    proof {
        assert(seq![tag@, tree.bytes@] =~= tree_index_seeds(*tree));
    }
    r
}

/// Seeded derivation is a pure function: identical seeds and an identical
/// program identity always yield the identical (address, bump) outcome,
/// so any third party can recompute a registry's address from the
/// collection identity alone.
pub proof fn lemma_derivation_deterministic(
    seeds: Seq<Seq<u8>>,
    program_id: Seq<u8>,
    first: Option<(Seq<u8>, u8)>,
    second: Option<(Seq<u8>, u8)>,
)
    requires
        first == derived_address(seeds, program_id),
        second == derived_address(seeds, program_id),
    ensures
        first == second,
{
}

} // verus!
