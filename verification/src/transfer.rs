//! Parties and the movement of value between them.

use vstd::prelude::*;
use crate::error::HostError;
use crate::key::{keys_equal, Key};

verus! {

/// An account taking part in a transaction, as the host resolved it: its
/// key, the units it holds, and whether its owner signed the transaction.
#[derive(Clone, Copy, Debug, PartialEq, Eq)]
pub struct Party {
    pub key: Key,
    pub balance: u64,
    pub signed: bool,
}

impl Party {
    /// This party holding `balance` units, all else equal.
    pub open spec fn with_balance(self, balance: u64) -> Party {
        Party { key: self.key, balance, signed: self.signed }
    }
}

/// What moving `amount` units from `from` to `to` does: the two parties
/// afterwards, or why nothing moves. The source must hold the amount. Two
/// handles with one key are one account, debited and credited at once, so
/// its balance stays. Otherwise the destination must have room for the
/// amount.
pub open spec fn transfer_outcome(from: Party, to: Party, amount: u64) -> Result<(Party, Party), HostError> {
    if from.balance < amount {
        Err(HostError::InsufficientFunds)
    } else if from.key@ == to.key@ {
        Ok((from, to))
    } else if to.balance + amount > u64::MAX {
        Err(HostError::BalanceOverflow)
    } else {
        Ok((from.with_balance((from.balance - amount) as u64), to.with_balance((to.balance + amount) as u64)))
    }
}

/// Moves `amount` units from `from` to `to`, or refuses and moves nothing.
pub fn transfer(from: &mut Party, to: &mut Party, amount: u64) -> (res: Result<(), HostError>)
    ensures
        match transfer_outcome(*old(from), *old(to), amount) {
            Ok((debited, credited)) => res is Ok && *final(from) == debited && *final(to) == credited,
            Err(e) => res == Err::<(), HostError>(e) && *final(from) == *old(from) && *final(to) == *old(to),
        },
{
    if from.balance < amount {
        return Err(HostError::InsufficientFunds);
    }
    if keys_equal(&from.key, &to.key) {
        return Ok(());
    }
    if to.balance > u64::MAX - amount {
        return Err(HostError::BalanceOverflow);
    }
    from.balance = from.balance - amount;
    to.balance = to.balance + amount;
    Ok(())
}

/// A transfer between two different accounts that succeeds takes the amount
/// from the source and gives the same amount to the destination; a refused
/// transfer changes nothing.
pub proof fn lemma_transfer_conserves(from: Party, to: Party, amount: u64)
    requires
        from.key@ != to.key@,
    ensures
        transfer_outcome(from, to, amount) matches Ok((debited, credited)) ==> {
            &&& debited.balance == from.balance - amount
            &&& credited.balance == to.balance + amount
            &&& debited.balance + credited.balance == from.balance + to.balance
        },
{
}

} // verus!
