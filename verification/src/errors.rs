//! The reasons for which a pool operation is rejected. Every rejection is a
//! recoverable error value; no operation aborts the process on bad input.

use vstd::prelude::*;

verus! {

/// Why an initialize or swap request was rejected. Any rejection leaves the
/// registry entry and both custody balances exactly as they were.
#[derive(Clone, Copy, Debug, PartialEq, Eq, Structural)]
pub enum PoolError {
    /// The requested pool name is longer than `POOL_MAX_NAME_LENGTH` bytes.
    NameTooLong,
    /// The pool address already holds a registry entry.
    AlreadyInitialized,
    /// No registry entry exists at the pool address.
    PoolNotInitialized,
    /// The supplied authority is not the one derivable from the seed prefix,
    /// the pool address and the bump.
    AuthorityMismatch,
    /// `amount * TOKENS_PER_UNIT` does not fit in a `u64`.
    AmountOverflow,
    /// Pool custody holds fewer tokens than the swap would move.
    InsufficientBalance,
    /// The destination balance would overflow a `u64`.
    BalanceOverflow,
}

} // verus!
