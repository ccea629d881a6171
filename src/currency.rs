use std::collections::HashMap;
use vstd::prelude::*;

use crate::error::Error;

verus! {

/// Balance of `who` in a map of balances; an account never credited holds 0.
pub open spec fn balance_in(m: Map<u64, u128>, who: u64) -> u128 {
    if m.contains_key(who) { m[who] } else { 0 }
}

/// Which error, if any, a transfer of `amount` from `from` to `to` meets.
pub open spec fn transfer_outcome(m: Map<u64, u128>, from: u64, to: u64, amount: u128) -> Result<(), Error> {
    if balance_in(m, from) < amount {
        Err(Error::InsufficientFunds)
    } else if from != to && balance_in(m, to) + amount > u128::MAX {
        Err(Error::BalanceOverflow)
    } else {
        Ok(())
    }
}

/// The balances after a transfer that succeeded.
pub open spec fn transferred(m: Map<u64, u128>, from: u64, to: u64, amount: u128) -> Map<u64, u128> {
    if from == to {
        m
    } else {
        m.insert(from, (balance_in(m, from) - amount) as u128).insert(
            to,
            (balance_in(m, to) + amount) as u128,
        )
    }
}

/// The currency ledger that purchases are paid through: free balances by
/// account, moved only by whole, all-or-nothing transfers.
pub struct Balances {
    free: HashMap<u64, u128>,
}

impl View for Balances {
    type V = Map<u64, u128>;

    closed spec fn view(&self) -> Map<u64, u128> {
        self.free@
    }
}

impl Balances {
    /// A ledger in which every account holds 0.
    pub fn new() -> (r: Balances)
        ensures
            r@ == Map::<u64, u128>::empty(),
    {
        Balances { free: HashMap::new() }
    }

    /// The free balance of `who`.
    pub fn free_balance(&self, who: u64) -> (r: u128)
        ensures
            r == balance_in(self@, who),
    {
        match self.free.get(&who) {
            Some(b) => *b,
            None => 0,
        }
    }

    /// Sets the free balance of `who`, as at genesis.
    pub fn set_balance(&mut self, who: u64, amount: u128)
        ensures
            final(self)@ == old(self)@.insert(who, amount),
    {
        self.free.insert(who, amount);
    }

    /// Moves `amount` from `from` to `to`, or fails and changes nothing.
    pub fn transfer(&mut self, from: u64, to: u64, amount: u128) -> (r: Result<(), Error>)
        ensures
            r == transfer_outcome(old(self)@, from, to, amount),
            r is Ok ==> final(self)@ == transferred(old(self)@, from, to, amount),
            r is Err ==> final(self)@ == old(self)@,
    {
        let from_balance = self.free_balance(from);
        if from_balance < amount {
            return Err(Error::InsufficientFunds);
        }
        if from == to {
            return Ok(());
        }
        let to_balance = self.free_balance(to);
        if to_balance > u128::MAX - amount {
            return Err(Error::BalanceOverflow);
        }
        self.free.insert(from, from_balance - amount);
        self.free.insert(to, to_balance + amount);
        Ok(())
    }
}

} // verus!
