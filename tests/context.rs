use ledger::{DepositOrWithdraw, Price, TransactionContext, TransactionFlags, PRICE_SCALAR};

fn price(value: i64) -> Price {
    Price(value * PRICE_SCALAR)
}

fn record(context: &TransactionContext, tx: u32) -> Option<(Price, TransactionFlags)> {
    context.transaction(tx).map(|r| (r.amount, r.flag))
}

#[test]
fn test_deposit() {
    let mut context = TransactionContext::new();
    let _ = context.handle_transaction(1, 1, price(100), DepositOrWithdraw::Deposit);

    assert_eq!(context.transactions_len(), 1);
    assert_eq!(
        record(&context, 1),
        Some((price(100), TransactionFlags::Undisputed))
    );

    let account = context.account(1).unwrap();
    assert_eq!(account.total, price(100));
    assert_eq!(account.held, price(0));
    assert_eq!(account.available(), price(100));
}

#[test]
fn test_withdraw() {
    let mut context = TransactionContext::new();
    let _ = context.handle_transaction(1, 1, price(100), DepositOrWithdraw::Deposit);
    let _ = context.handle_transaction(1, 2, price(50), DepositOrWithdraw::Withdraw);

    assert_eq!(context.transactions_len(), 2);

    let account = context.account(1).unwrap();
    assert_eq!(account.total, price(50));
    assert_eq!(account.held, price(0));
    assert_eq!(account.available(), price(50));
}

#[test]
fn test_dispute() {
    let mut context = TransactionContext::new();
    let _ = context.handle_transaction(1, 1, price(100), DepositOrWithdraw::Deposit);
    let _ = context.handle_dispute(1, 1);

    assert_eq!(
        record(&context, 1),
        Some((price(100), TransactionFlags::Disputed))
    );

    let account = context.account(1).unwrap();
    assert_eq!(account.total, price(100));
    assert_eq!(account.held, price(100));
    assert_eq!(account.available(), price(0));
}

#[test]
fn test_resolve() {
    let mut context = TransactionContext::new();
    let _ = context.handle_transaction(1, 1, price(100), DepositOrWithdraw::Deposit);
    let _ = context.handle_dispute(1, 1);
    let _ = context.handle_resolve(1, 1);

    assert_eq!(
        record(&context, 1),
        Some((price(100), TransactionFlags::Resolved))
    );

    let account = context.account(1).unwrap();
    assert_eq!(account.total, price(100));
    assert_eq!(account.held, price(0));
    assert_eq!(account.available(), price(100));
}

#[test]
fn test_chargeback() {
    let mut context = TransactionContext::new();
    let _ = context.handle_transaction(1, 1, price(100), DepositOrWithdraw::Deposit);
    let _ = context.handle_dispute(1, 1);
    let _ = context.handle_chargeback(1, 1);

    assert_eq!(
        record(&context, 1),
        Some((price(100), TransactionFlags::Chargeback))
    );

    let account = context.account(1).unwrap();
    assert_eq!(account.total, price(0));
    assert_eq!(account.held, price(0));
    assert_eq!(account.available(), price(0));
    assert!(account.locked);
}

#[test]
fn test_duplicate_transaction() {
    let mut context = TransactionContext::new();
    let _ = context.handle_transaction(1, 1, price(100), DepositOrWithdraw::Deposit);
    let _ = context.handle_transaction(1, 1, price(200), DepositOrWithdraw::Deposit);

    assert_eq!(context.transactions_len(), 1);

    let account = context.account(1).unwrap();
    assert_eq!(account.total, price(100));
    assert_eq!(account.available(), price(100));
}

#[test]
fn test_invalid_dispute() {
    let mut context = TransactionContext::new();
    let _ = context.handle_dispute(1, 1);

    assert_eq!(context.transactions_len(), 0);
    assert_eq!(context.accounts_len(), 0);
}

#[test]
fn test_invalid_resolve() {
    let mut context = TransactionContext::new();
    let _ = context.handle_resolve(1, 1);

    assert_eq!(context.transactions_len(), 0);
    assert_eq!(context.accounts_len(), 0);
}

#[test]
fn test_invalid_chargeback() {
    let mut context = TransactionContext::new();
    let _ = context.handle_chargeback(1, 1);

    assert_eq!(context.transactions_len(), 0);
    assert_eq!(context.accounts_len(), 0);
}
