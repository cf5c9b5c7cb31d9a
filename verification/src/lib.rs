//! A fixed-rate liquidity pool that exchanges a network's native currency for
//! a registered fungible token, custodied under a program-derived authority.
//!
//! The library models the pool's registry entry, the derivation and
//! verification of the pool's signing authority, and the two lifecycle
//! operations (initialize and swap) as verified state transitions. The
//! surrounding host — account loading, persistence, and the cross-program
//! token transfer itself — stays outside the library.

use vstd::prelude::*;

pub mod address;
pub mod authority;
pub mod codec;
pub mod errors;
pub mod lifecycle;
pub mod pool;

verus! {

/// Smallest native-currency units per whole coin.
pub const LAMPORTS_PER_SOL: u64 = 1000000000;

/// Upper bound, in bytes, on a pool's name.
pub const POOL_MAX_NAME_LENGTH: u8 = 32;

/// Fixed exchange rate: tokens moved out of custody per smallest
/// native-currency unit swapped in.
pub const TOKENS_PER_UNIT: u64 = 10;

/// The constant seed prefix under which every pool authority is derived:
/// the bytes of `"POOL_LIQUIDITY"`.
pub open spec fn pool_prefix() -> Seq<u8> {
    seq![80u8, 79u8, 79u8, 76u8, 95u8, 76u8, 73u8, 81u8, 85u8, 73u8, 68u8, 73u8, 84u8, 89u8]
}

/// Builds the constant seed prefix, the bytes of `"POOL_LIQUIDITY"`.
pub fn pool_liquidity_prefix() -> (r: Vec<u8>)
    ensures
        r@ == pool_prefix(),
{
    let r: Vec<u8> = vec![80u8, 79u8, 79u8, 76u8, 95u8, 76u8, 73u8, 81u8, 85u8, 73u8, 68u8, 73u8, 84u8, 89u8];
    proof {
        assert(r@ =~= pool_prefix());
    }
    r
}

} // verus!
