use std::collections::HashMap;
use vstd::prelude::*;
use vstd::std_specs::hash::*;

use crate::account::{Account, TransactionError};
use crate::amount::Price;

verus! {

broadcast use group_hash_axioms;

/// Which balance operation a recorded transaction performed.
#[derive(Debug, Clone, Copy, PartialEq, Eq, Structural)]
pub enum DepositOrWithdraw {
    Deposit,
    Withdraw,
}

/// Dispute state of a recorded transaction:
/// `Undisputed -> Disputed -> Resolved | Chargeback`.
#[derive(Debug, Clone, Copy, PartialEq, Eq, Structural)]
pub enum TransactionFlags {
    Undisputed,
    Disputed,
    Resolved,
    Chargeback,
}

/// A step of the dispute life cycle.
#[derive(Debug, Clone, Copy, PartialEq, Eq, Structural)]
pub enum DisputeAction {
    Dispute,
    Resolve,
    Chargeback,
}

/// An accepted deposit or withdrawal.
#[derive(Debug, Clone, Copy, PartialEq, Eq, Structural)]
pub struct TransactionRecord {
    pub client_id: u16,
    pub amount: Price,
    pub kind: DepositOrWithdraw,
    pub flag: TransactionFlags,
}

/// The abstract state of a ledger: the recorded transactions by id and the
/// accounts by client id.
pub struct LedgerState {
    pub records: Map<u32, TransactionRecord>,
    pub accounts: Map<u16, Account>,
}

impl DisputeAction {
    /// The state a record must be in for the step to apply.
    pub open spec fn expected(self) -> TransactionFlags {
        match self {
            DisputeAction::Dispute => TransactionFlags::Undisputed,
            _ => TransactionFlags::Disputed,
        }
    }

    /// The state a record is in after the step.
    pub open spec fn next(self) -> TransactionFlags {
        match self {
            DisputeAction::Dispute => TransactionFlags::Disputed,
            DisputeAction::Resolve => TransactionFlags::Resolved,
            DisputeAction::Chargeback => TransactionFlags::Chargeback,
        }
    }
}

impl LedgerState {
    /// Every account keeps its funds in order and every recorded amount is a
    /// magnitude.
    pub open spec fn wf(self) -> bool {
        &&& forall|c: u16| #[trigger] self.accounts.contains_key(c) ==> self.accounts[c].wf()
        &&& forall|t: u32| #[trigger] self.records.contains_key(t) ==> self.records[t].amount@ >= 0
    }

    /// The account of `client`, or a fresh one when the client is new.
    pub open spec fn account_or_fresh(self, client: u16) -> Account {
        if self.accounts.contains_key(client) {
            self.accounts[client]
        } else {
            Account::fresh()
        }
    }

    /// Outcome of a deposit or withdrawal event: a known id is a duplicate;
    /// otherwise the client's account is created if needed, the operation is
    /// applied, and on success the transaction is recorded.
    pub open spec fn monetary_step(
        self,
        client: u16,
        tx: u32,
        amount: Price,
        kind: DepositOrWithdraw,
    ) -> (LedgerState, Result<(), TransactionError>) {
        if self.records.contains_key(tx) {
            (self, Err(TransactionError::Duplicate))
        } else {
            let acct = self.account_or_fresh(client);
            let (next, r) = match kind {
                DepositOrWithdraw::Deposit => acct.deposit_spec(amount),
                DepositOrWithdraw::Withdraw => acct.withdraw_spec(amount),
            };
            let records = if r is Ok {
                self.records.insert(
                    tx,
                    TransactionRecord {
                        client_id: client,
                        amount,
                        kind,
                        flag: TransactionFlags::Undisputed,
                    },
                )
            } else {
                self.records
            };
            (LedgerState { records, accounts: self.accounts.insert(client, next) }, r)
        }
    }

    /// Outcome of a dispute, resolve or chargeback event on transaction `tx`.
    /// Only a deposit can be disputed, only by the client that made it.
    pub open spec fn dispute_step(self, client: u16, tx: u32, action: DisputeAction) -> (
        LedgerState,
        Result<(), TransactionError>,
    ) {
        if !self.records.contains_key(tx) {
            (self, Err(TransactionError::NotFound))
        } else {
            let rec = self.records[tx];
            if rec.client_id != client {
                (self, Err(TransactionError::ClientMismatch))
            } else if rec.flag != action.expected() || rec.kind != DepositOrWithdraw::Deposit {
                (self, Err(TransactionError::InvalidDispute))
            } else if !self.accounts.contains_key(client) {
                (self, Err(TransactionError::InvalidDispute))
            } else {
                let acct = self.accounts[client];
                let amount = rec.amount;
                let bad = match action {
                    DisputeAction::Dispute => amount@ > acct.available_spec(),
                    _ => amount@ > acct.held@,
                };
                if bad {
                    (
                        self,
                        Err(
                            if action == DisputeAction::Dispute {
                                TransactionError::InsufficientFunds
                            } else {
                                TransactionError::InvalidDispute
                            },
                        ),
                    )
                } else {
                    let next = match action {
                        DisputeAction::Dispute => acct.dispute_spec(amount),
                        DisputeAction::Resolve => acct.resolve_spec(amount),
                        DisputeAction::Chargeback => acct.chargeback_spec(amount),
                    };
                    (
                        LedgerState {
                            records: self.records.insert(tx, TransactionRecord { flag: action.next(), ..rec }),
                            accounts: self.accounts.insert(client, next),
                        },
                        Ok(()),
                    )
                }
            }
        }
    }
}

/// The ledger: recorded transactions by id and accounts by client id.
#[derive(Debug)]
pub struct TransactionContext {
    transactions: HashMap<u32, TransactionRecord>,
    accounts: HashMap<u16, Account>,
}

impl View for TransactionContext {
    type V = LedgerState;

    closed spec fn view(&self) -> LedgerState {
        LedgerState { records: self.transactions@, accounts: self.accounts@ }
    }
}

impl TransactionContext {
    /// A ledger with no transactions and no accounts.
    pub fn new() -> (r: TransactionContext)
        ensures
            r@.records == Map::<u32, TransactionRecord>::empty(),
            r@.accounts == Map::<u16, Account>::empty(),
            r@.wf(),
    {
        TransactionContext {
            transactions: HashMap::with_capacity(1024 * 1024),
            accounts: HashMap::with_capacity(1024),
        }
    }

    /// Applies a deposit or withdrawal of `amount` by `client_id` under id `tx`.
    /// Both kinds are recorded when they succeed, so an id is never used
    /// twice; only a recorded deposit can later be disputed.
    pub fn handle_transaction(
        &mut self,
        client_id: u16,
        tx: u32,
        amount: Price,
        deposit_withdraw: DepositOrWithdraw,
    ) -> (r: Result<(), TransactionError>)
        requires
            old(self)@.wf(),
            amount@ >= 0,
        ensures
            (final(self)@, r) == old(self)@.monetary_step(client_id, tx, amount, deposit_withdraw),
            final(self)@.wf(),
    {
        if self.transactions.contains_key(&tx) {
            return Err(TransactionError::Duplicate);
        }
        let mut account = match self.accounts.get(&client_id) {
            Some(a) => *a,
            None => Account::default(),
        };
        assert(account == old(self)@.account_or_fresh(client_id));
        assert(account.wf());
        let result = match deposit_withdraw {
            DepositOrWithdraw::Deposit => account.deposit(amount),
            DepositOrWithdraw::Withdraw => account.withdraw(amount),
        };
        self.accounts.insert(client_id, account);
        if result.is_ok() {
            let record = TransactionRecord {
                client_id,
                amount,
                kind: deposit_withdraw,
                flag: TransactionFlags::Undisputed,
            };
            self.transactions.insert(tx, record);
        }
        proof {
            assert(self@.records =~= old(self)@.monetary_step(client_id, tx, amount, deposit_withdraw).0.records);
        }
        result
    }
    /// Moves record `tx` one step along its dispute life cycle and applies
    /// the matching change to the owning account.
    fn apply_dispute(&mut self, client_id: u16, tx: u32, action: DisputeAction) -> (r: Result<
        (),
        TransactionError,
    >)
        requires
            old(self)@.wf(),
        ensures
            (final(self)@, r) == old(self)@.dispute_step(client_id, tx, action),
            final(self)@.wf(),
    {
        let rec = match self.transactions.get(&tx) {
            Some(rec) => *rec,
            None => {
                return Err(TransactionError::NotFound);
            },
        };
        if rec.client_id != client_id {
            return Err(TransactionError::ClientMismatch);
        }
        let expected = match action {
            DisputeAction::Dispute => TransactionFlags::Undisputed,
            _ => TransactionFlags::Disputed,
        };
        if rec.flag != expected || rec.kind != DepositOrWithdraw::Deposit {
            return Err(TransactionError::InvalidDispute);
        }
        let mut account = match self.accounts.get(&client_id) {
            Some(a) => *a,
            None => {
                return Err(TransactionError::InvalidDispute);
            },
        };
        assert(account.wf());
        let next = match action {
            DisputeAction::Dispute => {
                if rec.amount.0 > account.available().0 {
                    return Err(TransactionError::InsufficientFunds);
                }
                account.dispute(rec.amount);
                TransactionFlags::Disputed
            },
            DisputeAction::Resolve => {
                if rec.amount.0 > account.held.0 {
                    return Err(TransactionError::InvalidDispute);
                }
                account.resolve(rec.amount);
                TransactionFlags::Resolved
            },
            DisputeAction::Chargeback => {
                if rec.amount.0 > account.held.0 {
                    return Err(TransactionError::InvalidDispute);
                }
                account.chargeback(rec.amount);
                TransactionFlags::Chargeback
            },
        };
        self.accounts.insert(client_id, account);
        self.transactions.insert(tx, TransactionRecord { flag: next, ..rec });
        Ok(())
    }

    /// Puts the deposit `tx` of `client_id` under dispute, holding its amount.
    pub fn handle_dispute(&mut self, client_id: u16, tx: u32) -> (r: Result<(), TransactionError>)
        requires
            old(self)@.wf(),
        ensures
            (final(self)@, r) == old(self)@.dispute_step(client_id, tx, DisputeAction::Dispute),
            final(self)@.wf(),
    {
        self.apply_dispute(client_id, tx, DisputeAction::Dispute)
    }

    /// Ends the dispute on `tx` in the client's favour, releasing the held
    /// amount.
    pub fn handle_resolve(&mut self, client_id: u16, tx: u32) -> (r: Result<(), TransactionError>)
        requires
            old(self)@.wf(),
        ensures
            (final(self)@, r) == old(self)@.dispute_step(client_id, tx, DisputeAction::Resolve),
            final(self)@.wf(),
    {
        self.apply_dispute(client_id, tx, DisputeAction::Resolve)
    }

    /// Ends the dispute on `tx` by reversing it: the held amount leaves the
    /// account, which is then locked.
    pub fn handle_chargeback(&mut self, client_id: u16, tx: u32) -> (r: Result<
        (),
        TransactionError,
    >)
        requires
            old(self)@.wf(),
        ensures
            (final(self)@, r) == old(self)@.dispute_step(client_id, tx, DisputeAction::Chargeback),
            final(self)@.wf(),
    {
        self.apply_dispute(client_id, tx, DisputeAction::Chargeback)
    }

    /// The record of transaction `tx`, if one was recorded.
    pub fn transaction(&self, tx: u32) -> (r: Option<TransactionRecord>)
        ensures
            r == (if self@.records.contains_key(tx) {
                Some(self@.records[tx])
            } else {
                None
            }),
    {
        match self.transactions.get(&tx) {
            Some(rec) => Some(*rec),
            None => None,
        }
    }

    /// The account of `client_id`, if the client was seen.
    pub fn account(&self, client_id: u16) -> (r: Option<Account>)
        ensures
            r == (if self@.accounts.contains_key(client_id) {
                Some(self@.accounts[client_id])
            } else {
                None
            }),
    {
        match self.accounts.get(&client_id) {
            Some(a) => Some(*a),
            None => None,
        }
    }

    /// Number of recorded transactions.
    pub fn transactions_len(&self) -> (r: usize)
        ensures
            r == self@.records.len(),
    {
        self.transactions.len()
    }

    /// Number of accounts.
    pub fn accounts_len(&self) -> (r: usize)
        ensures
            r == self@.accounts.len(),
    {
        self.accounts.len()
    }
    /// Gives up the ledger and hands out every account with its client id, in
    /// no particular order.
    pub fn into_iter_accounts(self) -> (r: Vec<(u16, Account)>)
        ensures
            r@.len() == self@.accounts.len(),
            forall|i: int|
                0 <= i < r@.len() ==> #[trigger] self@.accounts.contains_key(r@[i].0)
                    && self@.accounts[r@[i].0] == r@[i].1,
            forall|c: u16| #[trigger]
                self@.accounts.contains_key(c) ==> exists|i: int|
                    0 <= i < r@.len() && #[trigger] r@[i].0 == c,
    {
        let mut out: Vec<(u16, Account)> = Vec::new();
        for entry in it: self.accounts.iter()
            invariant
                out@.len() == it.index(),
                forall|i: int|
                    0 <= i < out@.len() ==> out@[i].0 == *it.seq()[i].0 && out@[i].1 == *it.seq()[i].1,
        {
            let (c, a) = entry;
            out.push((*c, *a));
        }
        out
    }
}

} // verus!
