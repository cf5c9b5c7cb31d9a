//! The pool registry entry: the persisted record describing one pool.

use vstd::prelude::*;
use crate::address::Address;
use crate::address::ADDRESS_LEN;
use crate::POOL_MAX_NAME_LENGTH;

verus! {

/// The registry entry for one liquidity pool. The pool's own address is
/// never stored: it is the account's location, re-derived from context.
/// Every field is written once, at creation, and never changed.
pub struct BasicLiquidityPool {
    /// Semantic label, at most `POOL_MAX_NAME_LENGTH` bytes.
    pub name: Vec<u8>,
    /// Seconds since the epoch, read from the host clock at creation.
    pub created_at: i64,
    /// The bump seed that binds the pool's derived authority to its address.
    pub signer_bump: u8,
    /// The account that funded creation.
    pub pool_provider: Address,
}

impl BasicLiquidityPool {
    /// A well-formed entry: the name is within its bound and the provider
    /// address holds exactly 32 bytes. Creation establishes this and no
    /// operation ever changes an entry afterwards.
    pub open spec fn wf(&self) -> bool {
        &&& self.name@.len() <= POOL_MAX_NAME_LENGTH
        &&& self.pool_provider.wf()
    }

    /// Bytes of account storage the host reserves for an entry: an 8-byte
    /// discriminator, the bounded name, the timestamp, the creator, the
    /// bump seed, and one address width.
    pub fn space() -> (r: usize)
        ensures
            r == 113,
    {
        8 + 32 + 8 + 32 + 1 + ADDRESS_LEN
    }
}

} // verus!
