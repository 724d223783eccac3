//! Properties of the ledger that hold for every input, stated over the
//! abstract state that the executable operations are proved to follow.
use vstd::prelude::*;

use crate::account::{Account, TransactionError};
use crate::amount::Price;
use crate::context::{LedgerState, TransactionFlags, TransactionRecord};
use crate::processor::{apply_event, apply_events, TransactionEvent, TransactionType};

verus! {

pub open spec fn is_monetary(e: TransactionEvent) -> bool {
    e.ty == TransactionType::Deposit || e.ty == TransactionType::Withdrawal
}

pub open spec fn is_dispute_family(e: TransactionEvent) -> bool {
    !is_monetary(e)
}

/// The ledger a run starts from.
pub open spec fn empty_ledger() -> LedgerState {
    LedgerState {
        records: Map::<u32, TransactionRecord>::empty(),
        accounts: Map::<u16, Account>::empty(),
    }
}

/// Every event keeps every account at `0 <= held <= total`.
pub proof fn lemma_event_keeps_ledger_well_formed(s: LedgerState, e: TransactionEvent)
    requires
        s.wf(),
    ensures
        apply_event(s, e).0.wf(),
{
    let n = apply_event(s, e).0;
    assert forall|c: u16| #[trigger] n.accounts.contains_key(c) implies n.accounts[c].wf() by {
        if s.accounts.contains_key(c) {
            assert(s.accounts[c].wf());
        }
    }
    assert forall|t: u32| #[trigger] n.records.contains_key(t) implies n.records[t].amount@ >= 0 by {
        if s.records.contains_key(t) {
            assert(s.records[t].amount@ >= 0);
        }
    }
}

/// Whatever the events and their order, starting from an empty ledger no
/// account ever holds more than its total, and no total or held amount is
/// ever negative.
pub proof fn lemma_events_keep_balances_in_order(events: Seq<TransactionEvent>)
    ensures
        forall|c: u16| #[trigger]
            apply_events(empty_ledger(), events).accounts.contains_key(c) ==> {
                let a = apply_events(empty_ledger(), events).accounts[c];
                0 <= a.held@ <= a.total@
            },
{
    lemma_events_keep_ledger_well_formed(empty_ledger(), events);
    let f = apply_events(empty_ledger(), events);
    assert forall|c: u16| #[trigger] f.accounts.contains_key(c) implies 0 <= f.accounts[c].held@
        <= f.accounts[c].total@ by {
        assert(f.accounts[c].wf());
    }
}

/// Any sequence of events keeps a well-formed ledger well-formed.
pub proof fn lemma_events_keep_ledger_well_formed(s: LedgerState, events: Seq<TransactionEvent>)
    requires
        s.wf(),
    ensures
        apply_events(s, events).wf(),
    decreases events.len(),
{
    if events.len() > 0 {
        lemma_event_keeps_ledger_well_formed(s, events[0]);
        lemma_events_keep_ledger_well_formed(apply_event(s, events[0]).0, events.drop_first());
    }
}

/// A deposit or withdrawal under an id that is already recorded changes
/// nothing, and is rejected as a duplicate unless its amount has no
/// magnitude in range.
pub proof fn lemma_duplicate_id_is_rejected(s: LedgerState, e: TransactionEvent)
    requires
        is_monetary(e),
        s.records.contains_key(e.tx),
    ensures
        apply_event(s, e).0 == s,
        e.amount@ != i64::MIN ==> apply_event(s, e).1 == Err::<(), TransactionError>(
            TransactionError::Duplicate,
        ),
{
}

/// Once recorded, a transaction keeps its id, owner, amount and kind through
/// any later events; only its dispute state may move.
pub proof fn lemma_record_is_never_replaced(
    s: LedgerState,
    events: Seq<TransactionEvent>,
    tx: u32,
)
    requires
        s.records.contains_key(tx),
    ensures
        apply_events(s, events).records.contains_key(tx),
        apply_events(s, events).records[tx].client_id == s.records[tx].client_id,
        apply_events(s, events).records[tx].amount == s.records[tx].amount,
        apply_events(s, events).records[tx].kind == s.records[tx].kind,
    decreases events.len(),
{
    if events.len() > 0 {
        let n = apply_event(s, events[0]).0;
        assert(n.records.contains_key(tx));
        lemma_record_is_never_replaced(n, events.drop_first(), tx);
    }
}

/// A dispute, resolve or chargeback by a client that does not own the
/// recorded transaction is rejected and changes nothing.
pub proof fn lemma_foreign_dispute_is_rejected(s: LedgerState, e: TransactionEvent)
    requires
        is_dispute_family(e),
        s.records.contains_key(e.tx),
        s.records[e.tx].client_id != e.client_id,
    ensures
        apply_event(s, e) == (s, Err::<(), TransactionError>(TransactionError::ClientMismatch)),
{
}

/// A resolve or chargeback on a transaction that is not under dispute is
/// rejected and changes nothing; when the client owns the transaction, the
/// error is `InvalidDispute`.
pub proof fn lemma_settling_undisputed_is_rejected(s: LedgerState, e: TransactionEvent)
    requires
        e.ty == TransactionType::Resolve || e.ty == TransactionType::Chargeback,
        !(s.records.contains_key(e.tx) && s.records[e.tx].flag == TransactionFlags::Disputed),
    ensures
        apply_event(s, e).0 == s,
        apply_event(s, e).1 is Err,
        s.records.contains_key(e.tx) && s.records[e.tx].client_id == e.client_id ==> apply_event(
            s,
            e,
        ).1 == Err::<(), TransactionError>(TransactionError::InvalidDispute),
{
}

/// A chargeback that is applied was on a disputed transaction of the client;
/// it locks the account and lowers both its held and its total amount by
/// exactly the disputed amount.
pub proof fn lemma_chargeback_locks_and_debits(s: LedgerState, e: TransactionEvent)
    requires
        s.wf(),
        e.ty == TransactionType::Chargeback,
        apply_event(s, e).1 is Ok,
    ensures
        s.records.contains_key(e.tx),
        s.records[e.tx].flag == TransactionFlags::Disputed,
        s.accounts.contains_key(e.client_id),
        apply_event(s, e).0.records[e.tx].flag == TransactionFlags::Chargeback,
        ({
            let before = s.accounts[e.client_id];
            let after = apply_event(s, e).0.accounts[e.client_id];
            let amount = s.records[e.tx].amount@;
            &&& after.locked
            &&& after.held@ == before.held@ - amount
            &&& after.total@ == before.total@ - amount
        }),
{
    assert(s.records[e.tx].amount@ >= 0);
    assert(s.accounts[e.client_id].wf());
}

/// A locked account stays locked through any event.
pub proof fn lemma_locked_stays_locked(s: LedgerState, e: TransactionEvent, c: u16)
    requires
        s.accounts.contains_key(c),
        s.accounts[c].locked,
    ensures
        apply_event(s, e).0.accounts.contains_key(c),
        apply_event(s, e).0.accounts[c].locked,
{
}

/// A locked account stays locked through any sequence of events.
pub proof fn lemma_locked_stays_locked_through(
    s: LedgerState,
    events: Seq<TransactionEvent>,
    c: u16,
)
    requires
        s.accounts.contains_key(c),
        s.accounts[c].locked,
    ensures
        apply_events(s, events).accounts.contains_key(c),
        apply_events(s, events).accounts[c].locked,
    decreases events.len(),
{
    if events.len() > 0 {
        lemma_locked_stays_locked(s, events[0], c);
        lemma_locked_stays_locked_through(apply_event(s, events[0]).0, events.drop_first(), c);
    }
}

/// A new deposit or withdrawal on a locked account is rejected with `Locked`
/// and changes nothing (an id already recorded is a duplicate instead, and an
/// amount without a magnitude in range an overflow).
pub proof fn lemma_locked_account_rejects_funds(s: LedgerState, e: TransactionEvent)
    requires
        is_monetary(e),
        s.accounts.contains_key(e.client_id),
        s.accounts[e.client_id].locked,
        !s.records.contains_key(e.tx),
        e.amount@ != i64::MIN,
    ensures
        apply_event(s, e) == (s, Err::<(), TransactionError>(TransactionError::Locked)),
{
    assert(s.accounts.insert(e.client_id, s.accounts[e.client_id]) =~= s.accounts);
}

/// On a fresh account, a deposit followed by a withdrawal of the same amount
/// both succeed and bring the account back exactly to where it was.
pub proof fn lemma_deposit_withdraw_round_trip(amount: Price)
    requires
        amount@ >= 0,
    ensures
        Account::fresh().deposit_spec(amount).1 is Ok,
        Account::fresh().deposit_spec(amount).0.withdraw_spec(amount).1 is Ok,
        Account::fresh().deposit_spec(amount).0.withdraw_spec(amount).0 == Account::fresh(),
        Account::fresh().deposit_spec(amount).0.withdraw_spec(amount).0.available_spec()
            == Account::fresh().available_spec(),
{
}

} // verus!
