//! The contract's state and its operations: post creation, engagement,
//! shard transfers, and the fungible balance and allowance interface.
//!
//! Every operation either succeeds whole or fails with nothing changed. The
//! host checks authorization before an operation runs, keeps the records
//! alive, and publishes the events that a successful operation implies.
use vstd::prelude::*;

use crate::approval::{
    can_spend, pair_key, read_approval, spend_allowance, write_approval, Allowance,
    AllowanceLedger,
};
use crate::balance::{can_move, moved, move_balance, read_balance, spend_balance, BalanceLedger};
use crate::engagement::{after_build, crosses, PostConfig};
use crate::fractional::{
    can_transfer_shard, find_shard, lemma_post_added, local_index, post_of_shard, post_replaced, shard_moved,
    shard_reassigned, ShardRegistry,
};
use crate::metadata::{Metadata, MAX_DECIMAL};
use crate::{AccountId, ShardError};

verus! {

/// The whole contract state.
pub struct BewdNft {
    pub registry: ShardRegistry,
    pub balances: BalanceLedger,
    pub approvals: AllowanceLedger,
    pub metadata: Option<Metadata>,
    pub admin: Option<AccountId>,
}

impl BewdNft {
    /// The registry is well formed, no balance is negative and the metadata,
    /// once written, is acceptable.
    pub open spec fn wf(&self) -> bool {
        &&& self.registry.wf()
        &&& self.balances.wf()
        &&& self.metadata matches Some(m) ==> m.wf()
    }

    /// A state with no post, no balance, no allowance and no metadata.
    pub fn new() -> (r: BewdNft)
        ensures
            r.wf(),
            r.registry.posts@.len() == 0,
            r.registry.next_shard == 0,
            r.balances@ == Map::<AccountId, i128>::empty(),
            r.approvals@ == Map::<u128, Allowance>::empty(),
            r.metadata is None,
            r.admin is None,
    {
        BewdNft {
            registry: ShardRegistry::new(),
            balances: BalanceLedger::new(),
            approvals: AllowanceLedger::new(),
            metadata: None,
            admin: None,
        }
    }

    /// Creates post `post_id`: writes the metadata and the administrator,
    /// a fresh engagement state, `total_shards` shards all owned by `admin`
    /// mapped to the next free global indices. Balances and allowances are
    /// left as they were. Refused where `decimal` is above 18, the post
    /// exists or the global index space runs out.
    pub fn initialize_post(
        &mut self,
        admin: AccountId,
        post_id: Vec<u8>,
        decimal: u32,
        name: String,
        symbol: String,
        threshold: u32,
        total_shards: u32,
        is_rwa: bool,
    ) -> (r: Result<(), ShardError>)
        requires
            old(self).wf(),
        ensures
            final(self).wf(),
            decimal > 18 ==> r == Err::<(), ShardError>(ShardError::InvalidMetadata),
            decimal <= 18 && old(self).registry.has_post(post_id@) ==> r == Err::<(), ShardError>(
                ShardError::AlreadyInitialized,
            ),
            decimal <= 18 && !old(self).registry.has_post(post_id@) && old(self).registry.next_shard
                + total_shards > u32::MAX ==> r == Err::<(), ShardError>(ShardError::Overflow),
            r is Ok <==> decimal <= 18 && !old(self).registry.has_post(post_id@)
                && old(self).registry.next_shard + total_shards <= u32::MAX,
            r is Err ==> *final(self) == *old(self),
            r is Ok ==> (final(self).metadata matches Some(m) && m.decimal == decimal && m.name@
                == name@ && m.symbol@ == symbol@),
            r is Ok ==> final(self).admin == Some(admin),
            r is Ok ==> final(self).registry.post(post_id@).config == (PostConfig {
                threshold,
                build_count: 0,
                is_rwa,
            }),
            r is Ok ==> final(self).registry.has_post(post_id@),
            r is Ok ==> final(self).registry.shard_count_of(post_id@) == total_shards,
            r is Ok ==> final(self).registry.owners_of(post_id@) == Seq::new(
                total_shards as nat,
                |k: int| admin,
            ),
            r is Ok ==> (forall|g: int|
                #[trigger] final(self).registry.maps_shard(g, post_id@) <==> old(self).registry.next_shard <= g < old(self).registry.next_shard + total_shards),
            r is Ok ==> final(self).registry.next_shard == old(self).registry.next_shard
                + total_shards,
            r is Ok ==> final(self).registry.posts@.len() == old(self).registry.posts@.len() + 1,
            r is Ok ==> (forall|j: int|
                0 <= j < old(self).registry.posts@.len() ==> #[trigger] final(self).registry.posts@[j] == old(self).registry.posts@[j]),
            r is Ok ==> (forall|g: int, x: Seq<u8>|
                #[trigger] final(self).registry.maps_shard(g, x) <==> (old(self).registry.maps_shard(g, x)
                    || (x == post_id@ && old(self).registry.next_shard <= g < old(self).registry.next_shard
                    + total_shards))),
            r is Ok ==> (forall|q: Seq<u8>|
                q != post_id@ ==> (#[trigger] final(self).registry.has_post(q) == old(self).registry.has_post(q))),
            r is Ok ==> (forall|q: Seq<u8>|
                q != post_id@ ==> (#[trigger] final(self).registry.owners_of(q) == old(self).registry.owners_of(q))),
            r is Ok ==> (forall|q: Seq<u8>|
                q != post_id@ ==> (#[trigger] final(self).registry.shard_count_of(q) == old(self).registry.shard_count_of(q))),
            r is Ok ==> (forall|q: Seq<u8>|
                q != post_id@ && old(self).registry.has_post(q) ==> (#[trigger] final(self).registry.post(q) == old(self).registry.post(q))),
            final(self).balances == old(self).balances,
            final(self).approvals == old(self).approvals,
    {
        if decimal > MAX_DECIMAL {
            return Err(ShardError::InvalidMetadata);
        }
        if self.registry.find_post(&post_id).is_some() {
            return Err(ShardError::AlreadyInitialized);
        }
        if self.registry.next_shard > u32::MAX - total_shards {
            return Err(ShardError::Overflow);
        }
        let config = PostConfig::new(threshold, is_rwa);
        let ghost id = post_id@;
        let created = self.registry.create_post(admin, post_id, config, total_shards);
        assert(created is Ok);
        proof {
            lemma_post_added(old(self).registry, self.registry, id);
        }
        self.metadata = Some(Metadata { decimal, name, symbol });
        self.admin = Some(admin);
        Ok(())
    }

    /// Records one build of post `post_id`. Returns whether the
    /// fractionalization signal fires: only on the build that takes the
    /// counter from below the threshold to it, so once per post. Refused
    /// where the post does not exist or its counter is at `u32::MAX`.
    pub fn build_post(&mut self, post_id: &Vec<u8>) -> (r: Result<bool, ShardError>)
        requires
            old(self).wf(),
        ensures
            final(self).wf(),
            !old(self).registry.has_post(post_id@) ==> r == Err::<bool, ShardError>(
                ShardError::MissingRecord,
            ),
            old(self).registry.has_post(post_id@) && old(self).registry.post(
                post_id@,
            ).config.build_count == u32::MAX ==> r == Err::<bool, ShardError>(
                ShardError::Overflow,
            ),
            old(self).registry.has_post(post_id@) && old(self).registry.post(
                post_id@,
            ).config.build_count < u32::MAX ==> r == Ok::<bool, ShardError>(
                crosses(old(self).registry.post(post_id@).config),
            ) && post_replaced(
                old(self).registry,
                final(self).registry,
                old(self).registry.post_pos(post_id@),
                after_build(old(self).registry.post(post_id@).config),
                old(self).registry.post(post_id@).owners@,
            ),
            r is Err ==> *final(self) == *old(self),
            final(self).balances == old(self).balances,
            final(self).approvals == old(self).approvals,
            final(self).metadata == old(self).metadata,
            final(self).admin == old(self).admin,
    {
        self.registry.record_build(post_id)
    }

    /// Moves shard `shard_index` of post `post_id` from `from` to `to`.
    /// Refused where the post does not exist, the index is not below its
    /// shard count, or `from` does not own the shard.
    pub fn transfer_shard(
        &mut self,
        from: AccountId,
        to: AccountId,
        post_id: &Vec<u8>,
        shard_index: u32,
    ) -> (r: Result<(), ShardError>)
        requires
            old(self).wf(),
        ensures
            final(self).wf(),
            !old(self).registry.has_post(post_id@) ==> r == Err::<(), ShardError>(
                ShardError::MissingRecord,
            ),
            old(self).registry.has_post(post_id@) && shard_index >= old(self).registry.post(
                post_id@,
            ).shard_count ==> r == Err::<(), ShardError>(ShardError::IndexOutOfRange),
            old(self).registry.has_post(post_id@) && shard_index < old(self).registry.post(
                post_id@,
            ).shard_count && old(self).registry.post(post_id@).owners@[shard_index as int] != from
                ==> r == Err::<(), ShardError>(ShardError::NotShardOwner),
            r is Ok <==> can_transfer_shard(old(self).registry, from, post_id@, shard_index as int),
            r is Ok ==> shard_moved(
                old(self).registry,
                final(self).registry,
                from,
                to,
                post_id@,
                shard_index as int,
            ),
            r is Ok ==> final(self).registry.owners_of(post_id@) == old(self).registry.owners_of(
                post_id@,
            ).update(shard_index as int, to),
            r is Err ==> *final(self) == *old(self),
            final(self).balances == old(self).balances,
            final(self).approvals == old(self).approvals,
            final(self).metadata == old(self).metadata,
            final(self).admin == old(self).admin,
    {
        self.registry.transfer_shard(from, to, post_id, shard_index)
    }

    /// The amount that `spender` may still spend of `from`'s balance.
    pub fn allowance(&self, from: AccountId, spender: AccountId) -> (r: i128)
        ensures
            r == self.approvals.allowance_of(from, spender).amount,
    {
        read_approval(&self.approvals, from, spender).amount
    }

    /// Sets the allowance of `spender` over `from`'s balance, replacing any
    /// earlier one.
    pub fn approve(&mut self, from: AccountId, spender: AccountId, amount: i128, expiration_ledger: u32)
        requires
            old(self).wf(),
        ensures
            final(self).wf(),
            final(self).approvals@ == old(self).approvals@.insert(
                pair_key(from, spender),
                Allowance { amount, expiration_ledger },
            ),
            final(self).approvals.allowance_of(from, spender) == (Allowance {
                amount,
                expiration_ledger,
            }),
            final(self).registry == old(self).registry,
            final(self).balances == old(self).balances,
            final(self).metadata == old(self).metadata,
            final(self).admin == old(self).admin,
    {
        write_approval(&mut self.approvals, from, spender, amount, expiration_ledger);
    }

    /// The balance of `id`.
    pub fn balance(&self, id: AccountId) -> (r: i128)
        ensures
            r == self.balances.balance_of(id),
    {
        read_balance(&self.balances, id)
    }

    /// Moves one unit of balance from `from` to `to`, and gives the shard
    /// at global index `shard_index` to `to`. Refused where no post owns
    /// that index, `from`'s balance is below one or `to`'s would overflow.
    pub fn transfer(&mut self, from: AccountId, to: AccountId, shard_index: i128) -> (r: Result<
        (),
        ShardError,
    >)
        requires
            old(self).wf(),
        ensures
            final(self).wf(),
            !(0 <= shard_index <= u32::MAX && old(self).registry.is_mapped(shard_index as int))
                ==> r == Err::<(), ShardError>(ShardError::UnmappedShard),
            0 <= shard_index <= u32::MAX && old(self).registry.is_mapped(shard_index as int) && old(
                self,
            ).balances.balance_of(from) < 1 ==> r == Err::<(), ShardError>(
                ShardError::InsufficientBalance,
            ),
            0 <= shard_index <= u32::MAX && old(self).registry.is_mapped(shard_index as int) && old(
                self,
            ).balances.balance_of(from) >= 1 && !can_move(old(self).balances@, from, to, 1) ==> r
                == Err::<(), ShardError>(ShardError::Overflow),
            r is Ok <==> 0 <= shard_index <= u32::MAX && old(self).registry.is_mapped(
                shard_index as int,
            ) && can_move(old(self).balances@, from, to, 1),
            r is Ok ==> shard_reassigned(
                old(self).registry,
                final(self).registry,
                post_of_shard(old(self).registry, shard_index as int),
                local_index(old(self).registry, shard_index as int),
                to,
            ),
            r is Ok ==> final(self).balances@ == moved(old(self).balances@, from, to, 1),
            r is Err ==> *final(self) == *old(self),
            final(self).approvals == old(self).approvals,
            final(self).metadata == old(self).metadata,
            final(self).admin == old(self).admin,
    {
        if shard_index < 0 || shard_index > u32::MAX as i128 {
            return Err(ShardError::UnmappedShard);
        }
        let g = shard_index as u32;
        if find_shard(&self.registry, g).is_none() {
            return Err(ShardError::UnmappedShard);
        }
        if !can_move_balance(&self.balances, from, to, 1) {
            if read_balance(&self.balances, from) < 1 {
                return Err(ShardError::InsufficientBalance);
            }
            return Err(ShardError::Overflow);
        }
        let res = self.registry.transfer_global(to, g);
        assert(res is Ok);
        let moved_ok = move_balance(&mut self.balances, from, to, 1);
        assert(moved_ok is Ok);
        Ok(())
    }

    /// Moves `amount` from `from`'s balance to `to`'s, spending as much of
    /// `spender`'s allowance over `from`. Refused where `amount` is
    /// negative, exceeds the allowance or `from`'s balance, or `to`'s
    /// balance would overflow. The allowance never goes below zero.
    pub fn transfer_from(&mut self, spender: AccountId, from: AccountId, to: AccountId, amount: i128) -> (r:
        Result<(), ShardError>)
        requires
            old(self).wf(),
        ensures
            final(self).wf(),
            amount < 0 ==> r == Err::<(), ShardError>(ShardError::NegativeAmount),
            0 <= amount && !can_spend(&old(self).approvals, from, spender, amount) ==> r == Err::<
                (),
                ShardError,
            >(ShardError::InsufficientAllowance),
            can_spend(&old(self).approvals, from, spender, amount) && amount > old(self).balances.balance_of(from) ==> r == Err::<(), ShardError>(
                ShardError::InsufficientBalance,
            ),
            can_spend(&old(self).approvals, from, spender, amount) && amount <= old(self).balances.balance_of(from) && !can_move(old(self).balances@, from, to, amount as int)
                ==> r == Err::<(), ShardError>(ShardError::Overflow),
            r is Ok <==> can_spend(&old(self).approvals, from, spender, amount) && can_move(
                old(self).balances@,
                from,
                to,
                amount as int,
            ),
            r is Ok ==> final(self).balances@ == moved(old(self).balances@, from, to, amount as int),
            r is Ok ==> final(self).approvals@ == old(self).approvals@.insert(
                pair_key(from, spender),
                Allowance {
                    amount: (old(self).approvals.allowance_of(from, spender).amount - amount) as i128,
                    expiration_ledger: old(self).approvals.allowance_of(
                        from,
                        spender,
                    ).expiration_ledger,
                },
            ),
            r is Err ==> *final(self) == *old(self),
            final(self).registry == old(self).registry,
            final(self).metadata == old(self).metadata,
            final(self).admin == old(self).admin,
    {
        if let Err(e) = crate::check_nonnegative_amount(amount) {
            return Err(e);
        }
        if read_approval(&self.approvals, from, spender).amount < amount {
            return Err(ShardError::InsufficientAllowance);
        }
        let res = move_balance(&mut self.balances, from, to, amount);
        if res.is_err() {
            return res;
        }
        let spent = spend_allowance(&mut self.approvals, from, spender, amount);
        assert(spent is Ok);
        Ok(())
    }

    /// Debits `amount` from `from`'s balance. Refused where `amount` is
    /// negative or exceeds the balance.
    pub fn burn(&mut self, from: AccountId, amount: i128) -> (r: Result<(), ShardError>)
        requires
            old(self).wf(),
        ensures
            final(self).wf(),
            amount < 0 ==> r == Err::<(), ShardError>(ShardError::NegativeAmount),
            0 <= amount && amount > old(self).balances.balance_of(from) ==> r == Err::<
                (),
                ShardError,
            >(ShardError::InsufficientBalance),
            r is Ok <==> 0 <= amount <= old(self).balances.balance_of(from),
            r is Ok ==> final(self).balances@ == old(self).balances@.insert(
                from,
                (old(self).balances.balance_of(from) - amount) as i128,
            ),
            r is Err ==> *final(self) == *old(self),
            final(self).registry == old(self).registry,
            final(self).approvals == old(self).approvals,
            final(self).metadata == old(self).metadata,
            final(self).admin == old(self).admin,
    {
        if let Err(e) = crate::check_nonnegative_amount(amount) {
            return Err(e);
        }
        spend_balance(&mut self.balances, from, amount)
    }

    /// Debits `amount` from `from`'s balance, spending as much of
    /// `spender`'s allowance over `from`. Refused where `amount` is
    /// negative or exceeds the allowance or the balance.
    pub fn burn_from(&mut self, spender: AccountId, from: AccountId, amount: i128) -> (r: Result<
        (),
        ShardError,
    >)
        requires
            old(self).wf(),
        ensures
            final(self).wf(),
            amount < 0 ==> r == Err::<(), ShardError>(ShardError::NegativeAmount),
            0 <= amount && !can_spend(&old(self).approvals, from, spender, amount) ==> r == Err::<
                (),
                ShardError,
            >(ShardError::InsufficientAllowance),
            can_spend(&old(self).approvals, from, spender, amount) && amount > old(self).balances.balance_of(from) ==> r == Err::<(), ShardError>(
                ShardError::InsufficientBalance,
            ),
            r is Ok <==> can_spend(&old(self).approvals, from, spender, amount) && amount <= old(self).balances.balance_of(from),
            r is Ok ==> final(self).balances@ == old(self).balances@.insert(
                from,
                (old(self).balances.balance_of(from) - amount) as i128,
            ),
            r is Ok ==> final(self).approvals@ == old(self).approvals@.insert(
                pair_key(from, spender),
                Allowance {
                    amount: (old(self).approvals.allowance_of(from, spender).amount - amount) as i128,
                    expiration_ledger: old(self).approvals.allowance_of(
                        from,
                        spender,
                    ).expiration_ledger,
                },
            ),
            r is Err ==> *final(self) == *old(self),
            final(self).registry == old(self).registry,
            final(self).metadata == old(self).metadata,
            final(self).admin == old(self).admin,
    {
        if let Err(e) = crate::check_nonnegative_amount(amount) {
            return Err(e);
        }
        if read_approval(&self.approvals, from, spender).amount < amount {
            return Err(ShardError::InsufficientAllowance);
        }
        let res = spend_balance(&mut self.balances, from, amount);
        if res.is_err() {
            return res;
        }
        let spent = spend_allowance(&mut self.approvals, from, spender, amount);
        assert(spent is Ok);
        Ok(())
    }

    /// The decimal precision of the metadata last written.
    pub fn decimals(&self) -> (r: Result<u32, ShardError>)
        ensures
            self.metadata is None ==> r == Err::<u32, ShardError>(ShardError::MissingRecord),
            self.metadata matches Some(m) ==> r == Ok::<u32, ShardError>(m.decimal),
    {
        match &self.metadata {
            Some(m) => Ok(m.decimal),
            None => Err(ShardError::MissingRecord),
        }
    }

    /// The name of the metadata last written.
    pub fn name(&self) -> (r: Result<String, ShardError>)
        ensures
            self.metadata is None ==> r is Err && r == Err::<String, ShardError>(
                ShardError::MissingRecord,
            ),
            self.metadata matches Some(m) ==> (r matches Ok(s) && s@ == m.name@),
    {
        match &self.metadata {
            Some(m) => Ok(m.name.clone()),
            None => Err(ShardError::MissingRecord),
        }
    }

    /// The symbol of the metadata last written.
    pub fn symbol(&self) -> (r: Result<String, ShardError>)
        ensures
            self.metadata is None ==> r == Err::<String, ShardError>(ShardError::MissingRecord),
            self.metadata matches Some(m) ==> (r matches Ok(s) && s@ == m.symbol@),
    {
        match &self.metadata {
            Some(m) => Ok(m.symbol.clone()),
            None => Err(ShardError::MissingRecord),
        }
    }
}

/// Whether `amount` can move from `from` to `to`.
fn can_move_balance(ledger: &BalanceLedger, from: AccountId, to: AccountId, amount: i128) -> (r:
    bool)
    requires
        amount >= 0,
    ensures
        r == can_move(ledger@, from, to, amount as int),
{
    let from_balance = read_balance(ledger, from);
    if from_balance < amount {
        return false;
    }
    let to_balance = if to == from {
        from_balance - amount
    } else {
        read_balance(ledger, to)
    };
    to_balance <= i128::MAX - amount
}

} // verus!
