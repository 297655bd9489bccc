//! Third-party spending permissions, one per (owner, spender) pair.
//!
//! Stored in a `HashMap` here; the host keeps the same allowances in its own map
//! type, converted on each call.
use std::collections::HashMap;
use vstd::prelude::*;

use crate::{AccountId, ShardError};

verus! {

broadcast use vstd::std_specs::hash::group_hash_axioms;

/// What `spender` may still spend of `from`'s balance, and the last ledger
/// at which the permission is meant to hold.
#[derive(Debug, Clone, Copy, PartialEq, Eq, Structural)]
pub struct Allowance {
    pub amount: i128,
    pub expiration_ledger: u32,
}

/// The allowance ledger: each (owner, spender) pair is stored under
/// `pair_key(owner, spender)`.
pub struct AllowanceLedger {
    pub entries: HashMap<u128, Allowance>,
}

/// The key of the pair (owner, spender): the owner in the high 64 bits, the
/// spender in the low 64 bits.
pub open spec fn pair_key(from: AccountId, spender: AccountId) -> u128 {
    (from as int * 0x1_0000_0000_0000_0000 + spender as int) as u128
}

/// The allowance of a pair: the stored one, or zero with expiration zero.
pub open spec fn allowance_in(m: Map<u128, Allowance>, from: AccountId, spender: AccountId) -> Allowance {
    if m.contains_key(pair_key(from, spender)) {
        m[pair_key(from, spender)]
    } else {
        Allowance { amount: 0, expiration_ledger: 0 }
    }
}

fn key_of(from: AccountId, spender: AccountId) -> (r: u128)
    ensures
        r == pair_key(from, spender),
{
    assert(from as int * 0x1_0000_0000_0000_0000 + spender as int <= u128::MAX) by (nonlinear_arith)
        requires
            from <= u64::MAX,
            spender <= u64::MAX,
    ;
    (from as u128) * 0x1_0000_0000_0000_0000u128 + (spender as u128)
}

impl AllowanceLedger {
    pub open spec fn view(&self) -> Map<u128, Allowance> {
        self.entries@
    }

    /// The allowance of (from, spender) in this ledger.
    pub open spec fn allowance_of(&self, from: AccountId, spender: AccountId) -> Allowance {
        allowance_in(self@, from, spender)
    }

    /// An empty ledger.
    pub fn new() -> (r: AllowanceLedger)
        ensures
            r@ == Map::<u128, Allowance>::empty(),
    {
        AllowanceLedger { entries: HashMap::new() }
    }
}

/// Overwrites the allowance of (from, spender).
pub fn write_approval(
    ledger: &mut AllowanceLedger,
    from: AccountId,
    spender: AccountId,
    amount: i128,
    expiration_ledger: u32,
)
    ensures
        final(ledger)@ == old(ledger)@.insert(
            pair_key(from, spender),
            Allowance { amount, expiration_ledger },
        ),
        final(ledger).allowance_of(from, spender) == (Allowance { amount, expiration_ledger }),
{
    let allowance = Allowance { amount, expiration_ledger };
    ledger.entries.insert(key_of(from, spender), allowance);
}

/// The allowance of (from, spender); zero with expiration zero if none was
/// ever written.
pub fn read_approval(ledger: &AllowanceLedger, from: AccountId, spender: AccountId) -> (r:
    Allowance)
    ensures
        r == ledger.allowance_of(from, spender),
{
    match ledger.entries.get(&key_of(from, spender)) {
        Some(a) => *a,
        None => Allowance { amount: 0, expiration_ledger: 0 },
    }
}

/// Whether `amount` may be spent from the allowance of (from, spender): it
/// is not negative and the allowance covers it.
pub open spec fn can_spend(ledger: &AllowanceLedger, from: AccountId, spender: AccountId, amount: i128) -> bool {
    0 <= amount <= ledger.allowance_of(from, spender).amount
}

/// Lowers the allowance of (from, spender) by `amount`, keeping its
/// expiration. The allowance never goes below zero: an amount above it is
/// refused.
pub fn spend_allowance(
    ledger: &mut AllowanceLedger,
    from: AccountId,
    spender: AccountId,
    amount: i128,
) -> (r: Result<(), ShardError>)
    ensures
        amount < 0 ==> r == Err::<(), ShardError>(ShardError::NegativeAmount),
        0 <= amount && !can_spend(old(ledger), from, spender, amount) ==> r == Err::<(), ShardError>(
            ShardError::InsufficientAllowance,
        ),
        r is Ok <==> can_spend(old(ledger), from, spender, amount),
        r is Ok ==> final(ledger)@ == old(ledger)@.insert(
            pair_key(from, spender),
            Allowance {
                amount: (old(ledger).allowance_of(from, spender).amount - amount) as i128,
                expiration_ledger: old(ledger).allowance_of(from, spender).expiration_ledger,
            },
        ),
        r is Err ==> final(ledger)@ == old(ledger)@,
{
    if amount < 0 {
        return Err(ShardError::NegativeAmount);
    }
    let allowance = read_approval(ledger, from, spender);
    if allowance.amount < amount {
        return Err(ShardError::InsufficientAllowance);
    }
    write_approval(ledger, from, spender, allowance.amount - amount, allowance.expiration_ledger);
    Ok(())
}


/// Approving `amount` and then spending `spent` of it leaves `amount -
/// spent`, with the approved expiration; any later spend above what is left
/// is refused.
pub proof fn lemma_approve_then_spend(
    l0: AllowanceLedger,
    l1: AllowanceLedger,
    l2: AllowanceLedger,
    from: AccountId,
    spender: AccountId,
    amount: i128,
    expiration_ledger: u32,
    spent: i128,
)
    requires
        l1@ == l0@.insert(pair_key(from, spender), Allowance { amount, expiration_ledger }),
        can_spend(&l1, from, spender, spent),
        l2@ == l1@.insert(
            pair_key(from, spender),
            Allowance {
                amount: (l1.allowance_of(from, spender).amount - spent) as i128,
                expiration_ledger: l1.allowance_of(from, spender).expiration_ledger,
            },
        ),
    ensures
        l2.allowance_of(from, spender) == (Allowance {
            amount: (amount - spent) as i128,
            expiration_ledger,
        }),
        forall|x: i128| x > amount - spent ==> !can_spend(&l2, from, spender, x),
{
}

} // verus!
