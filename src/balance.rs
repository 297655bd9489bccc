//! Each account's aggregate holding, a counter that never goes below zero.
//!
//! Stored in a `HashMap` here; the host keeps the same balances in its own map
//! type, converted on each call.
use std::collections::HashMap;
use vstd::prelude::*;

use crate::{AccountId, ShardError};

verus! {

broadcast use vstd::std_specs::hash::group_hash_axioms;

/// The balance ledger. An account that was never written holds zero.
pub struct BalanceLedger {
    pub entries: HashMap<AccountId, i128>,
}

/// The balance of `id` in `m`.
pub open spec fn balance_in(m: Map<AccountId, i128>, id: AccountId) -> int {
    if m.contains_key(id) {
        m[id] as int
    } else {
        0
    }
}

impl BalanceLedger {
    pub open spec fn view(&self) -> Map<AccountId, i128> {
        self.entries@
    }

    /// The balance of `id`.
    pub open spec fn balance_of(&self, id: AccountId) -> int {
        balance_in(self@, id)
    }

    /// No balance is negative.
    pub open spec fn wf(&self) -> bool {
        forall|id: AccountId| #[trigger] self.balance_of(id) >= 0
    }

    /// An empty ledger.
    pub fn new() -> (r: BalanceLedger)
        ensures
            r@ == Map::<AccountId, i128>::empty(),
            r.wf(),
    {
        BalanceLedger { entries: HashMap::new() }
    }
}

/// The balance of `id`.
pub fn read_balance(ledger: &BalanceLedger, id: AccountId) -> (r: i128)
    ensures
        r == ledger.balance_of(id),
{
    match ledger.entries.get(&id) {
        Some(b) => *b,
        None => 0,
    }
}

/// Debits `amount` from `id`; refused where the balance does not cover it.
pub fn spend_balance(ledger: &mut BalanceLedger, id: AccountId, amount: i128) -> (r: Result<
    (),
    ShardError,
>)
    requires
        old(ledger).wf(),
        amount >= 0,
    ensures
        final(ledger).wf(),
        r is Ok <==> amount <= old(ledger).balance_of(id),
        r is Err ==> r == Err::<(), ShardError>(ShardError::InsufficientBalance) && *final(ledger)
            == *old(ledger),
        r is Ok ==> final(ledger)@ == old(ledger)@.insert(
            id,
            (old(ledger).balance_of(id) - amount) as i128,
        ),
{
    let balance = read_balance(ledger, id);
    if balance < amount {
        return Err(ShardError::InsufficientBalance);
    }
    ledger.entries.insert(id, balance - amount);
    assert forall|a: AccountId| #[trigger] ledger.balance_of(a) >= 0 by {
        if a != id {
            assert(ledger.balance_of(a) == old(ledger).balance_of(a));
        }
    }
    Ok(())
}

/// Credits `amount` to `id`; refused where the balance would pass
/// `i128::MAX`.
pub fn receive_balance(ledger: &mut BalanceLedger, id: AccountId, amount: i128) -> (r: Result<
    (),
    ShardError,
>)
    requires
        old(ledger).wf(),
        amount >= 0,
    ensures
        final(ledger).wf(),
        r is Ok <==> old(ledger).balance_of(id) + amount <= i128::MAX,
        r is Err ==> r == Err::<(), ShardError>(ShardError::Overflow) && *final(ledger) == *old(
            ledger,
        ),
        r is Ok ==> final(ledger)@ == old(ledger)@.insert(
            id,
            (old(ledger).balance_of(id) + amount) as i128,
        ),
{
    let balance = read_balance(ledger, id);
    if balance > i128::MAX - amount {
        return Err(ShardError::Overflow);
    }
    ledger.entries.insert(id, balance + amount);
    assert forall|a: AccountId| #[trigger] ledger.balance_of(a) >= 0 by {
        if a != id {
            assert(ledger.balance_of(a) == old(ledger).balance_of(a));
        }
    }
    Ok(())
}


/// The ledger after `amount` moves from `from` to `to`: a debit of `from`,
/// then a credit of `to`.
pub open spec fn moved(m: Map<AccountId, i128>, from: AccountId, to: AccountId, amount: int) -> Map<
    AccountId,
    i128,
> {
    let debited = m.insert(from, (balance_in(m, from) - amount) as i128);
    debited.insert(to, (balance_in(debited, to) + amount) as i128)
}

/// `amount` can move from `from` to `to`: `from` covers it and `to` can
/// take it.
pub open spec fn can_move(m: Map<AccountId, i128>, from: AccountId, to: AccountId, amount: int) -> bool {
    let debited = m.insert(from, (balance_in(m, from) - amount) as i128);
    &&& amount <= balance_in(m, from)
    &&& balance_in(debited, to) + amount <= i128::MAX
}

/// Moves `amount` from `from` to `to`, both or neither. Refused where
/// `from`'s balance does not cover it, or `to`'s would pass `i128::MAX`.
pub fn move_balance(ledger: &mut BalanceLedger, from: AccountId, to: AccountId, amount: i128) -> (r:
    Result<(), ShardError>)
    requires
        old(ledger).wf(),
        amount >= 0,
    ensures
        final(ledger).wf(),
        amount > old(ledger).balance_of(from) ==> r == Err::<(), ShardError>(
            ShardError::InsufficientBalance,
        ),
        amount <= old(ledger).balance_of(from) && !can_move(old(ledger)@, from, to, amount as int)
            ==> r == Err::<(), ShardError>(ShardError::Overflow),
        r is Ok <==> can_move(old(ledger)@, from, to, amount as int),
        r is Ok ==> final(ledger)@ == moved(old(ledger)@, from, to, amount as int),
        r is Err ==> *final(ledger) == *old(ledger),
{
    let from_balance = read_balance(ledger, from);
    if from_balance < amount {
        return Err(ShardError::InsufficientBalance);
    }
    let to_balance = if to == from {
        from_balance - amount
    } else {
        read_balance(ledger, to)
    };
    if to_balance > i128::MAX - amount {
        return Err(ShardError::Overflow);
    }
    let a = spend_balance(ledger, from, amount);
    let b = receive_balance(ledger, to, amount);
    assert(a is Ok && b is Ok);
    Ok(())
}

} // verus!
