//! Deterministic, program-scoped addresses: a namespace tag and byte seeds
//! determine an address and the bump byte that lets the program sign for it.
use vstd::prelude::*;
use solana_program::pubkey::Pubkey;

verus! {

/// The program address and bump seed found for `seeds` under `program_id`,
/// if the search finds one.
pub uninterp spec fn program_address(seeds: Seq<Seq<u8>>, program_id: Seq<u8>) -> Option<(Seq<u8>, u8)>;

/// The byte sequences of a list of seeds.
pub open spec fn seed_views(seeds: Seq<Vec<u8>>) -> Seq<Seq<u8>> {
    seeds.map_values(|s: Vec<u8>| s@)
}

/// Relies on Pubkey::try_find_program_address: the address and bump seed it
/// finds depend on the seeds and the program id alone, and it returns None
/// instead of panicking when no bump seed works or the seeds are too many or too long.
#[verifier::external_body]
fn try_find_program_address(seeds: &Vec<Vec<u8>>, program_id: &[u8; 32]) -> (r: Option<([u8; 32], u8)>)
    ensures
        match r {
            Some((a, b)) => program_address(seed_views(seeds@), program_id@) == Some((a@, b)),
            None => program_address(seed_views(seeds@), program_id@) is None,
        },
{
    let refs: Vec<&[u8]> = seeds.iter().map(|s| s.as_slice()).collect();
    let program = Pubkey::new_from_array(*program_id);
    Pubkey::try_find_program_address(&refs, &program).map(|(a, b)| (a.to_bytes(), b))
}

/// The program address and bump seed of `seeds`, as any party can compute it.
pub fn derive_address(seeds: &Vec<Vec<u8>>, program_id: &[u8; 32]) -> (r: Option<([u8; 32], u8)>)
    ensures
        match r {
            Some((a, b)) => program_address(seed_views(seeds@), program_id@) == Some((a@, b)),
            None => program_address(seed_views(seeds@), program_id@) is None,
        },
{
    try_find_program_address(seeds, program_id)
}

/// Whether `key` is the program address of `seeds`.
pub open spec fn derives_to(seeds: Seq<Seq<u8>>, program_id: Seq<u8>, key: Seq<u8>) -> bool {
    match program_address(seeds, program_id) {
        Some((a, _)) => a == key,
        None => false,
    }
}

/// The bump seed of `seeds` when `key` is their program address; None otherwise.
pub fn check_address(seeds: &Vec<Vec<u8>>, program_id: &[u8; 32], key: &[u8; 32]) -> (r: Option<u8>)
    ensures
        r is Some <==> derives_to(seed_views(seeds@), program_id@, key@),
        r matches Some(b) ==> program_address(seed_views(seeds@), program_id@) == Some((key@, b)),
{
    match try_find_program_address(seeds, program_id) {
        Some((a, b)) => {
            if crate::ledger::same_key(&a, key) {
                Some(b)
            } else {
                None
            }
        },
        None => None,
    }
}

/// The bump seed of `seeds`, where an address is found for them.
pub open spec fn bump_of(seeds: Seq<Seq<u8>>, program_id: Seq<u8>) -> u8 {
    match program_address(seeds, program_id) {
        Some((_, b)) => b,
        None => 0,
    }
}

/// The seeds with which the program signs for the address of `seeds`.
pub open spec fn signer_seeds(seeds: Seq<Seq<u8>>, program_id: Seq<u8>) -> Seq<Seq<u8>> {
    seeds.push(seq![bump_of(seeds, program_id)])
}

/// Checks that `key` is the program address of `seeds`; if it is, returns
/// the seeds with the bump seed appended, with which the program signs for it.
pub fn check_signer(seeds: Vec<Vec<u8>>, program_id: &[u8; 32], key: &[u8; 32]) -> (r: Option<
    Vec<Vec<u8>>,
>)
    ensures
        r is Some <==> derives_to(seed_views(seeds@), program_id@, key@),
        r matches Some(s) ==> seed_views(s@) == signer_seeds(seed_views(seeds@), program_id@),
{
    let mut seeds = seeds;
    let ghost plain = seed_views(seeds@);
    match check_address(&seeds, program_id, key) {
        Some(bump) => {
            let b: Vec<u8> = vec![bump];
            assert(b@ =~= seq![bump]);
            seeds.push(b);
            assert(seed_views(seeds@) =~= signer_seeds(plain, program_id@));
            Some(seeds)
        },
        None => None,
    }
}

/// "LISTING"
pub open spec fn listing_tag() -> Seq<u8> {
    seq![76u8, 73, 83, 84, 73, 78, 71]
}

/// "ORDER"
pub open spec fn order_tag() -> Seq<u8> {
    seq![79u8, 82, 68, 69, 82]
}

/// "HOLDER"
pub open spec fn holder_tag() -> Seq<u8> {
    seq![72u8, 79, 76, 68, 69, 82]
}

/// "TEMP"
pub open spec fn temp_tag() -> Seq<u8> {
    seq![84u8, 69, 77, 80]
}

/// "REGISTRY"
pub open spec fn registry_tag() -> Seq<u8> {
    seq![82u8, 69, 71, 73, 83, 84, 82, 89]
}

/// Seeds of the listing that `payer` created with `seed`.
pub open spec fn listing_seeds(seed: Seq<u8>, payer: Seq<u8>) -> Seq<Seq<u8>> {
    seq![listing_tag(), seed, payer]
}

/// Seeds of the escrow order that `buyer` opened with `seed`.
pub open spec fn order_seeds(seed: Seq<u8>, buyer: Seq<u8>) -> Seq<Seq<u8>> {
    seq![order_tag(), seed, buyer]
}

/// Seeds of the per-item pool.
pub open spec fn holder_seeds(item_id: Seq<u8>) -> Seq<Seq<u8>> {
    seq![holder_tag(), item_id]
}

/// Seeds of the per-trade fee pool.
pub open spec fn temp_seeds(buyer: Seq<u8>, seller: Seq<u8>, item_id: Seq<u8>) -> Seq<Seq<u8>> {
    seq![temp_tag(), buyer, seller, item_id]
}

/// Seeds of the registry record of a trade.
pub open spec fn registry_seeds(item_id: Seq<u8>, buyer: Seq<u8>, seller: Seq<u8>) -> Seq<Seq<u8>> {
    seq![registry_tag(), item_id, buyer, seller]
}

/// Builds a seed list from a tag and up to three further seeds.
fn seed_list(tag: Vec<u8>, a: Vec<u8>, b: Option<Vec<u8>>, c: Option<Vec<u8>>) -> (r: Vec<Vec<u8>>)
    ensures
        seed_views(r@) == (match (b, c) {
            (Some(b), Some(c)) => seq![tag@, a@, b@, c@],
            (Some(b), None) => seq![tag@, a@, b@],
            _ => seq![tag@, a@],
        }),
{
    let mut r: Vec<Vec<u8>> = Vec::new();
    r.push(tag);
    r.push(a);
    match b {
        Some(b) => {
            r.push(b);
            match c {
                Some(c) => r.push(c),
                None => {},
            }
        },
        None => {},
    }
    assert(seed_views(r@) =~= (match (b, c) {
        (Some(b), Some(c)) => seq![tag@, a@, b@, c@],
        (Some(b), None) => seq![tag@, a@, b@],
        _ => seq![tag@, a@],
    }));
    r
}

pub fn listing_seed_list(seed: &Vec<u8>, payer: &[u8; 32]) -> (r: Vec<Vec<u8>>)
    ensures
        seed_views(r@) == listing_seeds(seed@, payer@),
{
    let tag: Vec<u8> = vec![76u8, 73, 83, 84, 73, 78, 71];
    assert(tag@ =~= listing_tag());
    seed_list(tag, seed.clone(), Some(crate::ledger::key_bytes(payer)), None)
}

pub fn order_seed_list(seed: &Vec<u8>, buyer: &[u8; 32]) -> (r: Vec<Vec<u8>>)
    ensures
        seed_views(r@) == order_seeds(seed@, buyer@),
{
    let tag: Vec<u8> = vec![79u8, 82, 68, 69, 82];
    assert(tag@ =~= order_tag());
    seed_list(tag, seed.clone(), Some(crate::ledger::key_bytes(buyer)), None)
}

pub fn holder_seed_list(item_id: &Vec<u8>) -> (r: Vec<Vec<u8>>)
    ensures
        seed_views(r@) == holder_seeds(item_id@),
{
    let tag: Vec<u8> = vec![72u8, 79, 76, 68, 69, 82];
    assert(tag@ =~= holder_tag());
    seed_list(tag, item_id.clone(), None, None)
}

pub fn temp_seed_list(buyer: &Vec<u8>, seller: &Vec<u8>, item_id: &Vec<u8>) -> (r: Vec<Vec<u8>>)
    ensures
        seed_views(r@) == temp_seeds(buyer@, seller@, item_id@),
{
    let tag: Vec<u8> = vec![84u8, 69, 77, 80];
    assert(tag@ =~= temp_tag());
    seed_list(tag, buyer.clone(), Some(seller.clone()), Some(item_id.clone()))
}

pub fn registry_seed_list(item_id: &Vec<u8>, buyer: &Vec<u8>, seller: &Vec<u8>) -> (r: Vec<Vec<u8>>)
    ensures
        seed_views(r@) == registry_seeds(item_id@, buyer@, seller@),
{
    let tag: Vec<u8> = vec![82u8, 69, 71, 73, 83, 84, 82, 89];
    assert(tag@ =~= registry_tag());
    seed_list(tag, item_id.clone(), Some(buyer.clone()), Some(seller.clone()))
}

} // verus!
