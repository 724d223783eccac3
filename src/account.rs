use vstd::prelude::*;

use crate::amount::{in_range, Price};

verus! {

/// Why an event was not applied.
#[derive(Debug, Clone, Copy, PartialEq, Eq, Structural)]
pub enum TransactionError {
    /// The arithmetic would leave the range of an amount.
    Overflow,
    /// The transaction id was recorded before.
    Duplicate,
    /// No transaction with that id was recorded.
    NotFound,
    /// The record is not in the state that the event needs.
    InvalidDispute,
    /// The account does not hold enough available funds.
    InsufficientFunds,
    /// The account was frozen by a chargeback.
    Locked,
    /// The record belongs to another client.
    ClientMismatch,
}

/// Balance of one client. `held` is the part of `total` under dispute.
#[derive(Debug, Clone, Copy, PartialEq, Eq, Structural)]
pub struct Account {
    pub total: Price,
    pub held: Price,
    pub locked: bool,
}

impl Default for Account {
    fn default() -> (r: Account)
        ensures
            r == Account::fresh(),
    {
        Account { total: Price(0), held: Price(0), locked: false }
    }
}

impl Account {
    /// The account of a client seen for the first time.
    pub open spec fn fresh() -> Account {
        Account { total: Price(0), held: Price(0), locked: false }
    }

    /// Funds are never negative and never more are held than there are.
    pub open spec fn wf(self) -> bool {
        0 <= self.held@ <= self.total@
    }

    pub open spec fn available_spec(self) -> int {
        self.total@ - self.held@
    }

    /// Outcome of a deposit: the account afterwards and the result.
    pub open spec fn deposit_spec(self, amount: Price) -> (Account, Result<(), TransactionError>) {
        if self.locked {
            (self, Err(TransactionError::Locked))
        } else if !in_range(self.total@ + amount@) {
            (self, Err(TransactionError::Overflow))
        } else {
            (Account { total: Price((self.total@ + amount@) as i64), ..self }, Ok(()))
        }
    }

    /// Outcome of a withdrawal: the account afterwards and the result.
    pub open spec fn withdraw_spec(self, amount: Price) -> (Account, Result<(), TransactionError>) {
        if self.locked {
            (self, Err(TransactionError::Locked))
        } else if amount@ > self.available_spec() {
            (self, Err(TransactionError::InsufficientFunds))
        } else if !in_range(self.total@ - amount@) {
            (self, Err(TransactionError::Overflow))
        } else {
            (Account { total: Price((self.total@ - amount@) as i64), ..self }, Ok(()))
        }
    }

    pub open spec fn dispute_spec(self, amount: Price) -> Account {
        Account { held: Price((self.held@ + amount@) as i64), ..self }
    }

    pub open spec fn resolve_spec(self, amount: Price) -> Account {
        Account { held: Price((self.held@ - amount@) as i64), ..self }
    }

    pub open spec fn chargeback_spec(self, amount: Price) -> Account {
        Account {
            total: Price((self.total@ - amount@) as i64),
            held: Price((self.held@ - amount@) as i64),
            locked: true,
        }
    }

    /// Takes `amount` out of the account's available funds.
    pub fn withdraw(&mut self, amount: Price) -> (r: Result<(), TransactionError>)
        requires
            old(self).wf(),
            amount@ >= 0,
        ensures
            (*final(self), r) == old(self).withdraw_spec(amount),
            final(self).wf(),
    {
        if self.locked {
            return Err(TransactionError::Locked);
        }
        if amount.0 > self.available().0 {
            return Err(TransactionError::InsufficientFunds);
        }
        if !self.total.try_sub(amount) {
            return Err(TransactionError::Overflow);
        }
        Ok(())
    }

    /// Adds `amount` to the account's funds.
    pub fn deposit(&mut self, amount: Price) -> (r: Result<(), TransactionError>)
        requires
            old(self).wf(),
            amount@ >= 0,
        ensures
            (*final(self), r) == old(self).deposit_spec(amount),
            final(self).wf(),
    {
        if self.locked {
            return Err(TransactionError::Locked);
        }
        if !self.total.try_add(amount) {
            return Err(TransactionError::Overflow);
        }
        Ok(())
    }

    /// Holds `amount` of the available funds for a dispute.
    pub fn dispute(&mut self, amount: Price)
        requires
            old(self).wf(),
            0 <= amount@ <= old(self).available_spec(),
        ensures
            *final(self) == old(self).dispute_spec(amount),
            final(self).wf(),
    {
        self.held = Price(self.held.0 + amount.0);
    }

    /// Releases `amount` of the held funds.
    pub fn resolve(&mut self, amount: Price)
        requires
            old(self).wf(),
            0 <= amount@ <= old(self).held@,
        ensures
            *final(self) == old(self).resolve_spec(amount),
            final(self).wf(),
    {
        self.held = Price(self.held.0 - amount.0);
    }

    /// Removes `amount` of the held funds from the account and freezes it.
    pub fn chargeback(&mut self, amount: Price)
        requires
            old(self).wf(),
            0 <= amount@ <= old(self).held@,
        ensures
            *final(self) == old(self).chargeback_spec(amount),
            final(self).wf(),
    {
        self.held = Price(self.held.0 - amount.0);
        self.total = Price(self.total.0 - amount.0);
        self.locked = true;
    }

    /// Funds that are neither held nor withdrawn: `total - held`.
    pub fn available(&self) -> (r: Price)
        requires
            self.wf(),
        ensures
            r@ == self.available_spec(),
    {
        Price(self.total.0 - self.held.0)
    }
}

} // verus!
