//! Derivation of the address at which an owner's record is stored.
//!
//! The address is a function of a fixed domain tag, the owner's address and
//! the program's id. Any two parties compute the same address for the same
//! owner, and an address that was handed in is never trusted: it is derived
//! again and compared.

use vstd::prelude::*;

verus! {

/// The id of the program under which record addresses are derived
/// (`5YXYyH7i9WnQz1Hzh8kEuxSU5ws3n1Kor2KdTxnJkv6y` in base 58).
pub const ID: [u8; 32] = [
    67, 130, 76, 18, 47, 194, 62, 69, 51, 214, 232, 182, 47, 13, 56, 176,
    84, 247, 202, 212, 21, 185, 3, 13, 170, 27, 133, 83, 80, 236, 86, 118,
];

/// The domain tag that separates record addresses from any other address
/// derived under the program: the ASCII bytes of `ciphertext`.
pub const DOMAIN_TAG: [u8; 10] = [99, 105, 112, 104, 101, 114, 116, 101, 120, 116];

/// The most seeds that an address can be derived from, the bump seed included.
pub const MAX_SEEDS: usize = 16;

/// The most bytes that one seed can hold.
pub const MAX_SEED_LEN: usize = 32;

/// The address that `seeds` derive under `program_id`, or `None` where they
/// derive none. It stands for what `Pubkey::create_program_address` computes:
/// a hash of the seeds, the program id and a marker, which is an address only
/// if it is no point of the ed25519 curve.
pub uninterp spec fn program_address(seeds: Seq<Seq<u8>>, program_id: Seq<u8>) -> Option<Seq<u8>>;

/// The views of a list of seeds.
pub open spec fn seeds_view(seeds: &Vec<Vec<u8>>) -> Seq<Seq<u8>> {
    Seq::new(seeds@.len(), |i: int| seeds@[i]@)
}

/// `seeds` followed by the one-byte seed `bump`.
pub open spec fn with_bump(seeds: Seq<Seq<u8>>, bump: u8) -> Seq<Seq<u8>> {
    seeds.push(seq![bump])
}

/// `bump` is the bump seed that a search from 255 down to 1 stops at: it
/// derives an address, and no greater bump seed does.
pub open spec fn is_canonical_bump(seeds: Seq<Seq<u8>>, program_id: Seq<u8>, bump: u8) -> bool {
    &&& 1 <= bump
    &&& program_address(with_bump(seeds, bump), program_id) is Some
    &&& forall|b: u8| bump < b ==> program_address(with_bump(seeds, b), program_id) is None
}

/// No bump seed from 1 to 255 derives an address.
pub open spec fn no_bump_derives(seeds: Seq<Seq<u8>>, program_id: Seq<u8>) -> bool {
    forall|b: u8| 1 <= b ==> program_address(with_bump(seeds, b), program_id) is None
}

/// Calls `Pubkey::create_program_address` of `anchor_lang` on the seeds and
/// the program id. The contract claims that the outcome is a function of
/// these two alone, and names it: `Ok` with an address is `Some` of the
/// address, and either error is `None`.
#[verifier::external_body]
pub(crate) fn create_program_address(seeds: &Vec<Vec<u8>>, program_id: &[u8; 32]) -> (res: Option<
    [u8; 32],
>)
    ensures
        match res {
            Some(a) => program_address(seeds_view(seeds), program_id@) == Some(a@),
            None => program_address(seeds_view(seeds), program_id@) is None,
        },
{
    let parts: Vec<&[u8]> = seeds.iter().map(|s| s.as_slice()).collect();
    let id = anchor_lang::prelude::Pubkey::new_from_array(*program_id);
    match anchor_lang::prelude::Pubkey::create_program_address(&parts, &id) {
        Ok(address) => Some(address.to_bytes()),
        Err(_) => None,
    }
}

/// Calls `Pubkey::try_find_program_address` of `anchor_lang` on the seeds and
/// the program id. That function appends a one-byte bump seed to the seeds
/// and tries `create_program_address` with 255, 254, and so on down to 1; it
/// returns the first address that derives, with its bump seed, and `None`
/// when none does. The contract claims exactly that. It asks for fewer than
/// `MAX_SEEDS` seeds of at most `MAX_SEED_LEN` bytes each, for which the
/// search is never cut short.
#[verifier::external_body]
pub(crate) fn try_find_program_address(seeds: &Vec<Vec<u8>>, program_id: &[u8; 32]) -> (res:
    Option<([u8; 32], u8)>)
    requires
        seeds@.len() < MAX_SEEDS,
        forall|i: int| 0 <= i < seeds@.len() ==> (#[trigger] seeds@[i])@.len() <= MAX_SEED_LEN,
    ensures
        match res {
            Some((address, bump)) => {
                &&& is_canonical_bump(seeds_view(seeds), program_id@, bump)
                &&& program_address(with_bump(seeds_view(seeds), bump), program_id@) == Some(
                    address@,
                )
            },
            None => no_bump_derives(seeds_view(seeds), program_id@),
        },
{
    let parts: Vec<&[u8]> = seeds.iter().map(|s| s.as_slice()).collect();
    let id = anchor_lang::prelude::Pubkey::new_from_array(*program_id);
    match anchor_lang::prelude::Pubkey::try_find_program_address(&parts, &id) {
        Some((address, bump)) => Some((address.to_bytes(), bump)),
        None => None,
    }
}

/// The seeds of an owner's record, without the bump seed: the domain tag,
/// then the owner's address.
pub open spec fn record_seeds(owner: Seq<u8>) -> Seq<Seq<u8>> {
    seq![DOMAIN_TAG@, owner]
}

/// The address that `owner` and `bump` derive for a record, if they derive
/// one.
pub open spec fn record_address_with_bump(owner: Seq<u8>, bump: u8) -> Option<Seq<u8>> {
    program_address(with_bump(record_seeds(owner), bump), ID@)
}

/// The bump seed under which an owner's record is created, if there is one.
pub open spec fn canonical_bump(owner: Seq<u8>) -> Option<u8> {
    if exists|b: u8| is_canonical_bump(record_seeds(owner), ID@, b) {
        Some(choose|b: u8| is_canonical_bump(record_seeds(owner), ID@, b))
    } else {
        None
    }
}

/// The address at which an owner's record is created, with the bump seed that
/// proves the derivation; `None` where no bump seed derives an address.
pub open spec fn canonical_record_address(owner: Seq<u8>) -> Option<(Seq<u8>, u8)> {
    match canonical_bump(owner) {
        Some(bump) => match record_address_with_bump(owner, bump) {
            Some(address) => Some((address, bump)),
            None => None,
        },
        None => None,
    }
}

/// A derived address and its bump seed as mathematical values.
pub open spec fn derivation_view(res: Option<([u8; 32], u8)>) -> Option<(Seq<u8>, u8)> {
    match res {
        Some((address, bump)) => Some((address@, bump)),
        None => None,
    }
}

/// A derived address as a mathematical value.
pub open spec fn address_view(res: Option<[u8; 32]>) -> Option<Seq<u8>> {
    match res {
        Some(address) => Some(address@),
        None => None,
    }
}

/// At most one bump seed is canonical for given seeds.
proof fn lemma_canonical_bump_unique(seeds: Seq<Seq<u8>>, program_id: Seq<u8>, b1: u8, b2: u8)
    requires
        is_canonical_bump(seeds, program_id, b1),
        is_canonical_bump(seeds, program_id, b2),
    ensures
        b1 == b2,
{
}

/// Whether two addresses hold the same bytes.
pub fn same_address(a: &[u8; 32], b: &[u8; 32]) -> (res: bool)
    ensures
        res == (a@ == b@),
{
    let mut i: usize = 0;
    while i < 32
        invariant
            i <= 32,
            forall|j: int| 0 <= j < i ==> a@[j] == b@[j],
        decreases 32 - i,
    {
        if a[i] != b[i] {
            return false;
        }
        i += 1;
    }
    assert(a@ =~= b@);
    true
}

/// The seeds of `owner`'s record as bytes to derive from.
fn record_seed_bytes(owner: &[u8; 32]) -> (seeds: Vec<Vec<u8>>)
    ensures
        seeds_view(&seeds) == record_seeds(owner@),
        seeds@.len() == 2,
        seeds@[0]@.len() == 10,
        seeds@[1]@.len() == 32,
{
    let tag = vstd::slice::slice_to_vec(DOMAIN_TAG.as_slice());
    let who = vstd::slice::slice_to_vec(owner.as_slice());
    let mut seeds: Vec<Vec<u8>> = Vec::new();
    seeds.push(tag);
    seeds.push(who);
    assert(seeds_view(&seeds) =~= record_seeds(owner@));
    seeds
}

/// Derives the address of `stealth_pubkey`'s record from the domain tag and
/// the owner's address, as whoever creates the record does. Returns the
/// address and the bump seed that proves it.
pub fn find_ciphertext_address(stealth_pubkey: &[u8; 32]) -> (res: Option<([u8; 32], u8)>)
    ensures
        derivation_view(res) == canonical_record_address(stealth_pubkey@),
{
    let seeds = record_seed_bytes(stealth_pubkey);
    let found = try_find_program_address(&seeds, &ID);
    proof {
        let owner = stealth_pubkey@;
        match found {
            Some((address, bump)) => {
                let chosen = choose|b: u8| is_canonical_bump(record_seeds(owner), ID@, b);
                lemma_canonical_bump_unique(record_seeds(owner), ID@, bump, chosen);
            },
            None => {
                assert forall|b: u8| !is_canonical_bump(record_seeds(owner), ID@, b) by {}
            },
        }
    }
    found
}

/// Derives the address of `stealth_pubkey`'s record again from a stored bump
/// seed, as every access to an existing record does.
pub fn ciphertext_address_with_bump(stealth_pubkey: &[u8; 32], bump: u8) -> (res: Option<[u8; 32]>)
    ensures
        address_view(res) == record_address_with_bump(stealth_pubkey@, bump),
{
    let mut seeds = record_seed_bytes(stealth_pubkey);
    let mut last: Vec<u8> = Vec::new();
    last.push(bump);
    seeds.push(last);
    assert(seeds_view(&seeds) =~= with_bump(record_seeds(stealth_pubkey@), bump));
    create_program_address(&seeds, &ID)
}

} // verus!
