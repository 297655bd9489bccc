//! The social app's record of a tokenized post and its shard sale.
use vstd::prelude::*;

use crate::{AccountId, ShardError};

verus! {

/// A tokenized post: its creator, how many shards it offers and how many
/// were claimed, its metadata location and the token contract of its shards.
pub struct PostInfo {
    pub creator: AccountId,
    pub total_shards: u32,
    pub claimed_shards: u32,
    pub metadata_uri: String,
    pub shard_token: AccountId,
}

impl PostInfo {
    /// No more shards are claimed than offered.
    pub open spec fn wf(&self) -> bool {
        self.claimed_shards <= self.total_shards
    }

    /// A freshly tokenized post: nothing claimed yet.
    pub fn new(creator: AccountId, total_shards: u32, metadata_uri: String, shard_token: AccountId) -> (r:
        PostInfo)
        ensures
            r.wf(),
            r.creator == creator,
            r.total_shards == total_shards,
            r.claimed_shards == 0,
            r.metadata_uri == metadata_uri,
            r.shard_token == shard_token,
    {
        PostInfo { creator, total_shards, claimed_shards: 0, metadata_uri, shard_token }
    }

    /// The shards still unclaimed.
    pub fn available_shards(&self) -> (r: u32)
        requires
            self.wf(),
        ensures
            r == self.total_shards - self.claimed_shards,
    {
        self.total_shards - self.claimed_shards
    }

    /// Claims `shard_amount` more shards. Refused, with nothing changed,
    /// where fewer remain.
    pub fn claim_shards(&mut self, shard_amount: u32) -> (r: Result<(), ShardError>)
        requires
            old(self).wf(),
        ensures
            final(self).wf(),
            r is Ok <==> old(self).claimed_shards + shard_amount <= old(self).total_shards,
            r is Err ==> r == Err::<(), ShardError>(ShardError::InsufficientSupply) && *final(self)
                == *old(self),
            r is Ok ==> *final(self) == (PostInfo {
                claimed_shards: (old(self).claimed_shards + shard_amount) as u32,
                ..*old(self)
            }),
    {
        if shard_amount > self.total_shards - self.claimed_shards {
            return Err(ShardError::InsufficientSupply);
        }
        self.claimed_shards = self.claimed_shards + shard_amount;
        Ok(())
    }
}

} // verus!
