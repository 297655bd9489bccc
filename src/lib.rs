//! A ledger of fractional post ownership: each post is split into shards that
//! are owned and transferred one by one, beside a fungible balance and
//! allowance ledger and an engagement counter that signals once when it
//! reaches its threshold.
//!
//! Everything here is a plain in-memory state machine. Authorization, record
//! lifetime and event publication belong to the host that drives it.
use vstd::prelude::*;

pub mod approval;
pub mod balance;
pub mod contract;
pub mod engagement;
pub mod fractional;
pub mod metadata;
pub mod social;

verus! {

/// An account, as the host identifies it.
pub type AccountId = u64;

/// Why an operation was refused. A refused operation changes nothing.
#[derive(Debug, Clone, Copy, PartialEq, Eq, Structural)]
pub enum ShardError {
    /// The metadata's decimal precision is above 18.
    InvalidMetadata,
    /// A shard index is not below the post's shard count.
    IndexOutOfRange,
    /// No post owns the given global shard index.
    UnmappedShard,
    /// The account does not own the shard it tries to move.
    NotShardOwner,
    /// A signed quantity was negative.
    NegativeAmount,
    /// More shards were claimed than remain unclaimed.
    InsufficientSupply,
    /// The post or record read was never created.
    MissingRecord,
    /// The spender's allowance is below the amount spent.
    InsufficientAllowance,
    /// The account's balance is below the amount debited.
    InsufficientBalance,
    /// The post was already created.
    AlreadyInitialized,
    /// A counter or balance would leave its integer range.
    Overflow,
}

/// Refuses a negative quantity.
pub fn check_nonnegative_amount(amount: i128) -> (r: Result<(), ShardError>)
    ensures
        r == (if amount < 0 { Err(ShardError::NegativeAmount) } else { Ok::<(), ShardError>(()) }),
{
    if amount < 0 {
        Err(ShardError::NegativeAmount)
    } else {
        Ok(())
    }
}

} // verus!
