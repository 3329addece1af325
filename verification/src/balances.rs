use vstd::prelude::*;

use crate::types::TransferError;
use std::collections::HashMap;

verus! {

/// The spendable balance a ledger map records for `who`; an account without
/// an entry holds zero.
pub open spec fn free_of(m: Map<u64, u64>, who: u64) -> u64 {
    if m.contains_key(who) {
        m[who]
    } else {
        0
    }
}

/// The ledger map after `amount` has moved from `from` to `to`.  Moving value
/// from an account to itself leaves the ledger as it was.
pub open spec fn spec_transfer(m: Map<u64, u64>, from: u64, to: u64, amount: u64) -> Map<u64, u64> {
    if from == to {
        m
    } else {
        m.insert(from, (free_of(m, from) - amount) as u64).insert(
            to,
            (free_of(m, to) + amount) as u64,
        )
    }
}

/// The balance-transfer collaborator: a ledger of spendable balances, one
/// fungible balance per account.  The registry moves deposits between a
/// participant and the custody-pool account through [`Balances::transfer`].
pub struct Balances {
    pub free: HashMap<u64, u64>,
}

impl View for Balances {
    type V = Map<u64, u64>;

    open spec fn view(&self) -> Map<u64, u64> {
        self.free@
    }
}

impl Balances {
    /// The spendable balance of `who`; zero when the ledger has no entry.
    pub open spec fn spec_free_balance(self, who: u64) -> u64 {
        free_of(self@, who)
    }

    /// Whether moving `amount` from `from` to `to` can succeed: the source
    /// must hold at least `amount` (it may be drained to zero), and the
    /// destination's balance must not overflow.
    pub open spec fn can_transfer(self, from: u64, to: u64, amount: u64) -> bool {
        &&& amount <= self.spec_free_balance(from)
        &&& (from == to || self.spec_free_balance(to) + amount <= u64::MAX)
    }

    /// An empty ledger: every account holds zero.
    pub fn new() -> (r: Balances)
        ensures
            r@ == Map::<u64, u64>::empty(),
    {
        Balances { free: HashMap::new() }
    }

    /// Overwrites the recorded balance of one account, as a genesis
    /// endowment does.
    pub fn set_balance(&mut self, who: u64, value: u64)
        ensures
            final(self)@ == old(self)@.insert(who, value),
    {
        self.free.insert(who, value);
    }

    /// Reads the spendable balance of `who`.
    pub fn free_balance(&self, who: u64) -> (r: u64)
        ensures
            r == self.spec_free_balance(who),
    {
        match self.free.get(&who) {
            Some(v) => *v,
            _ => 0,
        }
    }

    /// Moves `amount` from `from` to `to`, allowing the source to be fully
    /// drained to zero.  A transfer of zero value always succeeds.  On
    /// failure the ledger is unchanged.
    pub fn transfer(&mut self, from: u64, to: u64, amount: u64) -> (r: Result<(), TransferError>)
        ensures
            r is Ok <==> old(self).can_transfer(from, to, amount),
            r is Ok ==> final(self)@ == spec_transfer(old(self)@, from, to, amount),
            r is Err ==> final(self)@ == old(self)@,
    {
        let from_free = self.free_balance(from);
        if amount > from_free {
            return Err(TransferError::InsufficientBalance);
        }
        if from == to {
            return Ok(());
        }
        let to_free = self.free_balance(to);
        if to_free > u64::MAX - amount {
            return Err(TransferError::Overflow);
        }
        self.free.insert(from, from_free - amount);
        self.free.insert(to, to_free + amount);
        Ok(())
    }
}

} // verus!
