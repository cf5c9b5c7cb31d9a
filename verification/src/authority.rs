//! Derivation and verification of a pool's signing authority.
//!
//! The authority is a program-derived address: a deterministic, one-way
//! function of a fixed seed prefix, the pool's address, a one-byte bump
//! seed and the program id, guaranteed to have no private key. The host's
//! derivation primitive is trusted; everything decided from its result —
//! the equality check that gates every custody transfer — is verified.

use vstd::prelude::*;
use crate::address::Address;
use crate::address::bytes_eq;

verus! {

/// What `Pubkey::create_program_address` returns for the seed triple
/// `(prefix, pool, [bump])` under `program_id`: the derived authority
/// address, or `None` where the candidate falls on the ed25519 curve or a
/// seed breaks the host's limits. The result depends on these inputs alone.
pub uninterp spec fn pda_of(prefix: Seq<u8>, pool: Seq<u8>, bump: u8, program_id: Seq<u8>) -> Option<Seq<u8>>;

/// What `Pubkey::try_find_program_address` returns for the seed pair
/// `(prefix, pool)` under `program_id`: the first bump, counting down from
/// 255, whose derived address is valid, together with that address. The
/// result depends on these inputs alone.
pub uninterp spec fn find_pda_of(prefix: Seq<u8>, pool: Seq<u8>, program_id: Seq<u8>) -> Option<(Seq<u8>, u8)>;

/// The verification predicate: `bump` is legitimately bound to `pool`
/// exactly when the address derived from `(prefix, pool, bump)` under
/// `program_id` is `expected`.
pub open spec fn authority_matches(
    bump: u8,
    prefix: Seq<u8>,
    pool: Seq<u8>,
    expected: Seq<u8>,
    program_id: Seq<u8>,
) -> bool {
    pda_of(prefix, pool, bump, program_id) == Some(expected)
}

/// Relies on `Pubkey::create_program_address` (via `anchor_lang`'s
/// re-export): it derives the program address for the seeds
/// `[prefix, pool, [bump]]` under `program_id` — a 32-byte address that is a
/// function of those inputs alone — and returns an error instead where a
/// seed is over the host's limits or the candidate lies on the ed25519
/// curve.
#[verifier::external_body]
fn create_program_address(
    prefix: &Vec<u8>,
    pool: &Address,
    bump: u8,
    program_id: &Address,
) -> (r: Option<Address>)
    requires
        pool.wf(),
        program_id.wf(),
    ensures
        (match r {
            Some(a) => a.wf() && pda_of(prefix@, pool@, bump, program_id@) == Some(a@),
            None => pda_of(prefix@, pool@, bump, program_id@) is None,
        }),
{
    let pool_pk = anchor_lang::prelude::Pubkey::new_from_array(pool.bytes.as_slice().try_into().unwrap());
    let program_pk = anchor_lang::prelude::Pubkey::new_from_array(program_id.bytes.as_slice().try_into().unwrap());
    let bump_seed = [bump];
    let seeds: &[&[u8]] = &[prefix.as_slice(), pool_pk.as_ref(), &bump_seed];
    match anchor_lang::prelude::Pubkey::create_program_address(seeds, &program_pk) {
        Ok(pk) => Some(Address { bytes: pk.to_bytes().to_vec() }),
        Err(_) => None,
    }
}

/// Relies on `Pubkey::try_find_program_address` (via `anchor_lang`'s
/// re-export): for the seeds `[prefix, pool]` under `program_id` it returns
/// the first bump, counting down from 255, for which
/// `create_program_address` succeeds, together with the address so derived;
/// the result depends on those inputs alone, and is `None` in the
/// statistically improbable event that no bump is viable.
#[verifier::external_body]
fn try_find_program_address(
    prefix: &Vec<u8>,
    pool: &Address,
    program_id: &Address,
) -> (r: Option<(Address, u8)>)
    requires
        pool.wf(),
        program_id.wf(),
    ensures
        (match r {
            Some(p) => p.0.wf()
                && find_pda_of(prefix@, pool@, program_id@) == Some((p.0@, p.1))
                && pda_of(prefix@, pool@, p.1, program_id@) == Some(p.0@),
            None => find_pda_of(prefix@, pool@, program_id@) is None,
        }),
{
    let pool_pk = anchor_lang::prelude::Pubkey::new_from_array(pool.bytes.as_slice().try_into().unwrap());
    let program_pk = anchor_lang::prelude::Pubkey::new_from_array(program_id.bytes.as_slice().try_into().unwrap());
    let seeds: &[&[u8]] = &[prefix.as_slice(), pool_pk.as_ref()];
    match anchor_lang::prelude::Pubkey::try_find_program_address(seeds, &program_pk) {
        Some((pk, bump)) => Some((Address { bytes: pk.to_bytes().to_vec() }, bump)),
        None => None,
    }
}

/// Derives the pool's authority address and its bump seed from the seed
/// prefix, the pool's address and the program id. The result is a function
/// of those inputs alone: repeated calls yield the same pair, and the pair
/// satisfies `authority_matches`, the predicate every swap re-checks.
pub fn derive_authority(
    prefix: &Vec<u8>,
    pool_address: &Address,
    program_id: &Address,
) -> (r: Option<(Address, u8)>)
    requires
        pool_address.wf(),
        program_id.wf(),
    ensures
        (match r {
            Some(p) => p.0.wf()
                && find_pda_of(prefix@, pool_address@, program_id@) == Some((p.0@, p.1))
                && authority_matches(p.1, prefix@, pool_address@, p.0@, program_id@),
            None => find_pda_of(prefix@, pool_address@, program_id@) is None,
        }),
{
    try_find_program_address(prefix, pool_address, program_id)
}

/// Recomputes the authority address from `(prefix, pool_address,
/// claimed_bump)` under `program_id` and compares it with
/// `expected_authority`. Returns exactly the value of `authority_matches`;
/// it is a pure gate with no side effect.
pub fn verify_authority(
    claimed_bump: u8,
    prefix: &Vec<u8>,
    pool_address: &Address,
    expected_authority: &Address,
    program_id: &Address,
) -> (r: bool)
    requires
        pool_address.wf(),
        program_id.wf(),
    ensures
        r == authority_matches(claimed_bump, prefix@, pool_address@, expected_authority@, program_id@),
{
    match create_program_address(prefix, pool_address, claimed_bump, program_id) {
        Some(derived) => bytes_eq(&derived.bytes, &expected_authority.bytes),
        None => false,
    }
}

/// Law: authority derivation is deterministic. Any two derivation results
/// for the same prefix, pool address and program id — each equal to
/// `find_pda_of` of those inputs, as the contract of `derive_authority`
/// states — are the same pair.
pub proof fn lemma_derive_deterministic(
    prefix: Seq<u8>,
    pool: Seq<u8>,
    program_id: Seq<u8>,
    r1: Option<(Seq<u8>, u8)>,
    r2: Option<(Seq<u8>, u8)>,
)
    requires
        r1 == find_pda_of(prefix, pool, program_id),
        r2 == find_pda_of(prefix, pool, program_id),
    ensures
        r1 == r2,
{
}

} // verus!
