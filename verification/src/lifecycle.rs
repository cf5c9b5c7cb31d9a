//! The pool lifecycle controller: creation of a registry entry and custody
//! transfers under its authority, as verified state transitions.
//!
//! The host loads the pool account, serializes all calls against one pool
//! address, and applies each call's effects atomically; these functions
//! compute the decision and the new state. Every rejection is an error
//! value and leaves the entry and both custody balances exactly as found.

use vstd::prelude::*;
use crate::address::Address;
use crate::authority::authority_matches;
use crate::authority::verify_authority;
use crate::errors::PoolError;
use crate::pool::BasicLiquidityPool;
use crate::pool_liquidity_prefix;
use crate::pool_prefix;
use crate::POOL_MAX_NAME_LENGTH;
use crate::TOKENS_PER_UNIT;

verus! {

/// The authority check a swap performs against a stored entry: the address
/// derived from the constant prefix, the pool's address and the entry's
/// stored bump must be the supplied authority.
pub open spec fn swap_authority_ok(
    e: BasicLiquidityPool,
    pool: Seq<u8>,
    authority: Seq<u8>,
    program_id: Seq<u8>,
) -> bool {
    authority_matches(e.signer_bump, pool_prefix(), pool, authority, program_id)
}

/// Tokens moved out of custody by a swap of `amount` native units, at the
/// fixed program-wide rate.
pub open spec fn tokens_moved(amount: u64) -> int {
    amount * TOKENS_PER_UNIT
}

/// A committed swap's effect on the two custody balances: exactly
/// `tokens_moved(amount)` tokens leave pool custody and arrive at the
/// caller's account, and both sides stayed within `u64`.
pub open spec fn swap_committed(
    pool_before: u64,
    sender_before: u64,
    pool_after: u64,
    sender_after: u64,
    amount: u64,
) -> bool {
    &&& tokens_moved(amount) <= pool_before
    &&& sender_before + tokens_moved(amount) <= u64::MAX
    &&& pool_after == pool_before - tokens_moved(amount)
    &&& sender_after == sender_before + tokens_moved(amount)
}

/// Creates the registry entry for a new pool.
///
/// `slot` is the pool account's content as the host presents it: `None`
/// for a fresh account, `Some` where an entry already exists. The entry is
/// written only when the slot is empty, the claimed bump re-derives the
/// supplied authority, and the name is within its bound; any rejection
/// returns the reason and leaves the slot untouched. No balance moves.
pub fn initialize_pool_handler(
    slot: &mut Option<BasicLiquidityPool>,
    client_name: Vec<u8>,
    client_bump: u8,
    pool_address: &Address,
    pool_authority: &Address,
    payer: &Address,
    now: i64,
    program_id: &Address,
) -> (r: Result<(), PoolError>)
    requires
        pool_address.wf(),
        payer.wf(),
        program_id.wf(),
    ensures
        ({
            let ok = authority_matches(client_bump, pool_prefix(), pool_address@, pool_authority@, program_id@);
            &&& ((*old(slot)) is Some ==> r == Err::<(), PoolError>(PoolError::AlreadyInitialized))
            &&& ((*old(slot)) is None && !ok ==> r == Err::<(), PoolError>(
                PoolError::AuthorityMismatch,
            ))
            &&& ((*old(slot)) is None && ok && client_name@.len() > POOL_MAX_NAME_LENGTH ==> r
                == Err::<(), PoolError>(PoolError::NameTooLong))
            &&& ((*old(slot)) is None && ok && client_name@.len() <= POOL_MAX_NAME_LENGTH ==> r
                == Ok::<(), PoolError>(()))
            &&& (r is Err ==> *final(slot) == *old(slot))
            &&& (r is Ok ==> ((*final(slot)) matches Some(e) && e.name@ == client_name@
                && e.created_at == now && e.signer_bump == client_bump && e.pool_provider@ == payer@
                && e.wf()))
        }),
{
    if slot.is_some() {
        return Err(PoolError::AlreadyInitialized);
    }
    let prefix = pool_liquidity_prefix();
    if !verify_authority(client_bump, &prefix, pool_address, pool_authority, program_id) {
        return Err(PoolError::AuthorityMismatch);
    }
    if client_name.len() > POOL_MAX_NAME_LENGTH as usize {
        return Err(PoolError::NameTooLong);
    }
    let entry = BasicLiquidityPool {
        name: client_name,
        created_at: now,
        signer_bump: client_bump,
        pool_provider: payer.dup(),
    };
    *slot = Some(entry);
    Ok(())
}

/// Executes a swap against an existing pool: moves
/// `amount * TOKENS_PER_UNIT` tokens from pool custody to the caller's
/// custody, authorized by re-deriving the authority from the entry's
/// stored bump.
///
/// `slot` is the pool account's content; the registry entry is read,
/// never written. The two balances are the custody token accounts' state
/// as the host presents it; on success both are updated together, and on
/// any rejection both are exactly as found. An `amount` of zero succeeds
/// and moves zero tokens.
pub fn swap_token_handler(
    slot: &Option<BasicLiquidityPool>,
    pool_address: &Address,
    pool_authority: &Address,
    program_id: &Address,
    pool_token_balance: &mut u64,
    sender_token_balance: &mut u64,
    amount: u64,
) -> (r: Result<u64, PoolError>)
    requires
        pool_address.wf(),
        program_id.wf(),
    ensures
        ({
            let moved = tokens_moved(amount);
            &&& (slot is None ==> r == Err::<u64, PoolError>(PoolError::PoolNotInitialized))
            &&& (slot matches Some(e) ==> ({
                let ok = swap_authority_ok(*e, pool_address@, pool_authority@, program_id@);
                &&& (!ok ==> r == Err::<u64, PoolError>(PoolError::AuthorityMismatch))
                &&& (ok && moved > u64::MAX ==> r == Err::<u64, PoolError>(
                    PoolError::AmountOverflow,
                ))
                &&& (ok && moved <= u64::MAX && moved > *old(pool_token_balance) ==> r == Err::<
                    u64,
                    PoolError,
                >(PoolError::InsufficientBalance))
                &&& (ok && moved <= u64::MAX && moved <= *old(pool_token_balance) && *old(
                    sender_token_balance,
                ) + moved > u64::MAX ==> r == Err::<u64, PoolError>(PoolError::BalanceOverflow))
                &&& (ok && moved <= u64::MAX && moved <= *old(pool_token_balance) && *old(
                    sender_token_balance,
                ) + moved <= u64::MAX ==> (r == Ok::<u64, PoolError>(moved as u64)
                    && swap_committed(
                    *old(pool_token_balance),
                    *old(sender_token_balance),
                    *final(pool_token_balance),
                    *final(sender_token_balance),
                    amount,
                )))
            }))
            &&& (r is Err ==> *final(pool_token_balance) == *old(pool_token_balance)
                && *final(sender_token_balance) == *old(sender_token_balance))
        }),
{
    let entry = match slot {
        None => {
            return Err(PoolError::PoolNotInitialized);
        },
        Some(e) => e,
    };
    let prefix = pool_liquidity_prefix();
    if !verify_authority(entry.signer_bump, &prefix, pool_address, pool_authority, program_id) {
        return Err(PoolError::AuthorityMismatch);
    }
    let moved = match amount.checked_mul(TOKENS_PER_UNIT) {
        None => {
            return Err(PoolError::AmountOverflow);
        },
        Some(m) => m,
    };
    if moved > *pool_token_balance {
        return Err(PoolError::InsufficientBalance);
    }
    if *sender_token_balance > u64::MAX - moved {
        return Err(PoolError::BalanceOverflow);
    }
    *pool_token_balance = *pool_token_balance - moved;
    *sender_token_balance = *sender_token_balance + moved;
    Ok(moved)
}

/// Law: the bump stored at creation verifies at every later swap. An entry
/// whose stored bump re-derives the authority supplied at creation — what a
/// successful initialize guarantees of the entry it writes — passes the
/// authority check a swap performs against the same pool address, authority
/// and program id.
pub proof fn lemma_stored_bump_verifies(
    e: BasicLiquidityPool,
    bump: u8,
    pool: Seq<u8>,
    authority: Seq<u8>,
    program_id: Seq<u8>,
)
    requires
        e.signer_bump == bump,
        authority_matches(bump, pool_prefix(), pool, authority, program_id),
    ensures
        swap_authority_ok(e, pool, authority, program_id),
{
}

/// Law: swaps against one pool are serialized by the host, and serialized
/// swaps cannot overdraw custody. If one swap commits and a second commits
/// against the balances the first left behind, the two together move no
/// more than the custody balance before the first, the second debits the
/// post-first balance, and every token that left custody arrived at the
/// caller's side.
pub proof fn lemma_serialized_swaps_no_double_spend(
    p0: u64,
    s0: u64,
    p1: u64,
    s1: u64,
    p2: u64,
    s2: u64,
    a1: u64,
    a2: u64,
)
    requires
        swap_committed(p0, s0, p1, s1, a1),
        swap_committed(p1, s1, p2, s2, a2),
    ensures
        tokens_moved(a1) + tokens_moved(a2) <= p0,
        p2 == p0 - tokens_moved(a1) - tokens_moved(a2),
        s2 == s0 + tokens_moved(a1) + tokens_moved(a2),
{
}

} // verus!
