use vstd::prelude::*;

use crate::account::{Account, TransactionError};
use crate::amount::{abs_spec, Price};
use crate::context::{DepositOrWithdraw, DisputeAction, LedgerState, TransactionContext};

verus! {

/// Kind of an incoming event.
#[derive(Debug, Clone, Copy, PartialEq, Eq, Structural)]
pub enum TransactionType {
    Deposit,
    Withdrawal,
    Dispute,
    Resolve,
    Chargeback,
}

/// An incoming event. `amount` matters for deposits and withdrawals only.
#[derive(Debug, Clone, Copy, PartialEq, Eq, Structural)]
pub struct TransactionEvent {
    pub ty: TransactionType,
    pub client_id: u16,
    pub tx: u32,
    pub amount: Price,
}

#[verifier::external_type_specification]
#[verifier::external_body]
#[verifier::reject_recursive_types(T)]
pub struct ExConsumer<T>(rtrb::Consumer<T>);

/// Relies on `rtrb::Consumer::pop`: takes the oldest queued event, or
/// nothing when the queue is empty at that moment. What comes depends on the
/// producer thread, so nothing is stated of it.
#[verifier::external_body]
fn pop_event(consumer: &mut rtrb::Consumer<TransactionEvent>) -> Option<TransactionEvent> {
    consumer.pop().ok()
}

/// Relies on `rtrb::Consumer::is_abandoned`: whether the producer has been
/// dropped. Once it has, it stays so, but nothing is stated of the answer.
#[verifier::external_body]
fn producer_gone(consumer: &rtrb::Consumer<TransactionEvent>) -> bool {
    consumer.is_abandoned()
}

/// Outcome of one event on ledger `s`. A deposit or withdrawal uses the
/// magnitude of its amount; one whose amount has no magnitude in range is an
/// overflow and changes nothing.
pub open spec fn apply_event(s: LedgerState, e: TransactionEvent) -> (
    LedgerState,
    Result<(), TransactionError>,
) {
    match e.ty {
        TransactionType::Deposit | TransactionType::Withdrawal => {
            if e.amount@ == i64::MIN {
                (s, Err(TransactionError::Overflow))
            } else {
                let kind = if e.ty == TransactionType::Deposit {
                    DepositOrWithdraw::Deposit
                } else {
                    DepositOrWithdraw::Withdraw
                };
                s.monetary_step(e.client_id, e.tx, Price(abs_spec(e.amount@) as i64), kind)
            }
        },
        TransactionType::Dispute => s.dispute_step(e.client_id, e.tx, DisputeAction::Dispute),
        TransactionType::Resolve => s.dispute_step(e.client_id, e.tx, DisputeAction::Resolve),
        TransactionType::Chargeback => s.dispute_step(
            e.client_id,
            e.tx,
            DisputeAction::Chargeback,
        ),
    }
}

/// The ledger after applying `events` in order to `s`.
pub open spec fn apply_events(s: LedgerState, events: Seq<TransactionEvent>) -> LedgerState
    decreases events.len(),
{
    if events.len() == 0 {
        s
    } else {
        apply_events(apply_event(s, events[0]).0, events.drop_first())
    }
}

/// Normalises the event's amount and dispatches it to the ledger operation
/// of its kind.
pub fn update_accounts(context: &mut TransactionContext, event: TransactionEvent) -> (r: Result<
    (),
    TransactionError,
>)
    requires
        old(context)@.wf(),
    ensures
        (final(context)@, r) == apply_event(old(context)@, event),
        final(context)@.wf(),
{
    let mut amount = event.amount;
    match event.ty {
        TransactionType::Deposit => {
            if amount.0 == i64::MIN {
                return Err(TransactionError::Overflow);
            }
            amount.make_absolute();
            context.handle_transaction(event.client_id, event.tx, amount, DepositOrWithdraw::Deposit)
        },
        TransactionType::Withdrawal => {
            if amount.0 == i64::MIN {
                return Err(TransactionError::Overflow);
            }
            amount.make_absolute();
            context.handle_transaction(
                event.client_id,
                event.tx,
                amount,
                DepositOrWithdraw::Withdraw,
            )
        },
        TransactionType::Dispute => context.handle_dispute(event.client_id, event.tx),
        TransactionType::Resolve => context.handle_resolve(event.client_id, event.tx),
        TransactionType::Chargeback => context.handle_chargeback(event.client_id, event.tx),
    }
}

/// One turn of draining the queue: `polled` is what was taken from it and
/// `abandoned` whether the producer was already gone before taking. An event
/// is applied and draining goes on; an empty queue ends the draining only
/// once the producer is gone. A rejected event is dropped.
pub fn drain_step(
    context: &mut TransactionContext,
    polled: Option<TransactionEvent>,
    abandoned: bool,
) -> (keep_going: bool)
    requires
        old(context)@.wf(),
    ensures
        final(context)@.wf(),
        match polled {
            Some(e) => keep_going && final(context)@ == apply_event(old(context)@, e).0,
            None => keep_going == !abandoned && final(context)@ == old(context)@,
        },
{
    match polled {
        Some(event) => {
            let _ = update_accounts(context, event);
            true
        },
        None => !abandoned,
    }
}

/// Drains a single-producer queue of events into a ledger that it owns.
pub struct TransactionProcessor {
    context: TransactionContext,
    consumer: rtrb::Consumer<TransactionEvent>,
}

impl TransactionProcessor {
    /// The state of the ledger being filled.
    pub closed spec fn ledger(&self) -> LedgerState {
        self.context@
    }

    /// A processor with an empty ledger, reading from `consumer`.
    pub fn new(consumer: rtrb::Consumer<TransactionEvent>) -> (r: TransactionProcessor)
        ensures
            r.ledger().records == Map::<u32, crate::context::TransactionRecord>::empty(),
            r.ledger().accounts == Map::<u16, Account>::empty(),
            r.ledger().wf(),
    {
        TransactionProcessor { context: TransactionContext::new(), consumer }
    }

    /// Takes at most one event from the queue and applies it. Returns `false`
    /// once the producer is gone and the queue is empty; the ledger is then
    /// unchanged.
    pub fn poll(&mut self) -> (keep_going: bool)
        requires
            old(self).ledger().wf(),
        ensures
            final(self).ledger().wf(),
            final(self).ledger() == old(self).ledger() || exists|e: TransactionEvent|
                final(self).ledger() == #[trigger] apply_event(old(self).ledger(), e).0,
            !keep_going ==> final(self).ledger() == old(self).ledger(),
    {
        let abandoned = producer_gone(&self.consumer);
        let polled = pop_event(&mut self.consumer);
        drain_step(&mut self.context, polled, abandoned)
    }

    /// Gives up the processor and hands out every account of its ledger.
    pub fn into_accounts(self) -> (r: Vec<(u16, Account)>)
        ensures
            r@.len() == self.ledger().accounts.len(),
            forall|i: int|
                0 <= i < r@.len() ==> #[trigger] self.ledger().accounts.contains_key(r@[i].0)
                    && self.ledger().accounts[r@[i].0] == r@[i].1,
            forall|c: u16| #[trigger]
                self.ledger().accounts.contains_key(c) ==> exists|i: int|
                    0 <= i < r@.len() && #[trigger] r@[i].0 == c,
    {
        self.context.into_iter_accounts()
    }
}

} // verus!
