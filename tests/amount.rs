use ledger::{Account, Price, TransactionError, PRICE_SCALAR};

#[test]
fn scalar_gives_four_fractional_digits() {
    assert_eq!(PRICE_SCALAR, 10000);
}

#[test]
fn make_absolute_flips_negative() {
    let mut p = Price(-25000);
    p.make_absolute();
    assert_eq!(p, Price(25000));
    let mut q = Price(7);
    q.make_absolute();
    assert_eq!(q, Price(7));
}

#[test]
fn try_add_sums_exactly() {
    let mut p = Price(12345);
    assert!(p.try_add(Price(55)));
    assert_eq!(p, Price(12400));
}

#[test]
fn try_add_rejects_overflow() {
    let mut p = Price(i64::MAX - 1);
    assert!(!p.try_add(Price(2)));
    assert_eq!(p, Price(i64::MAX - 1));
}

#[test]
fn try_sub_rejects_underflow() {
    let mut p = Price(i64::MIN + 1);
    assert!(!p.try_sub(Price(2)));
    assert_eq!(p, Price(i64::MIN + 1));
    let mut q = Price(100);
    assert!(q.try_sub(Price(150)));
    assert_eq!(q, Price(-50));
}

#[test]
fn default_price_is_zero() {
    assert_eq!(Price::default(), Price(0));
}

#[test]
fn account_deposit_overflow() {
    let mut a = Account::default();
    assert_eq!(a.deposit(Price(i64::MAX)), Ok(()));
    assert_eq!(a.deposit(Price(1)), Err(TransactionError::Overflow));
    assert_eq!(a.total, Price(i64::MAX));
}

#[test]
fn account_withdraw_insufficient() {
    let mut a = Account::default();
    assert_eq!(a.deposit(Price(30000)), Ok(()));
    assert_eq!(a.withdraw(Price(30001)), Err(TransactionError::InsufficientFunds));
    assert_eq!(a.total, Price(30000));
}

#[test]
fn account_round_trip_is_exact() {
    let mut a = Account::default();
    assert_eq!(a.deposit(Price(1)), Ok(()));
    assert_eq!(a.withdraw(Price(1)), Ok(()));
    assert_eq!(a.available(), Price(0));
    assert_eq!(a, Account::default());
}

#[test]
fn account_dispute_resolve_chargeback() {
    let mut a = Account::default();
    assert_eq!(a.deposit(Price(50000)), Ok(()));
    a.dispute(Price(20000));
    assert_eq!(a.held, Price(20000));
    assert_eq!(a.available(), Price(30000));
    a.resolve(Price(5000));
    assert_eq!(a.held, Price(15000));
    a.chargeback(Price(15000));
    assert_eq!(a.held, Price(0));
    assert_eq!(a.total, Price(35000));
    assert!(a.locked);
    assert_eq!(a.deposit(Price(1)), Err(TransactionError::Locked));
    assert_eq!(a.withdraw(Price(1)), Err(TransactionError::Locked));
}

#[test]
fn decimal_text_has_four_fraction_digits() {
    assert_eq!(Price(100000).to_decimal_string(), "10.0000");
    assert_eq!(Price(50500).to_decimal_string(), "5.0500");
    assert_eq!(Price(0).to_decimal_string(), "0.0000");
    assert_eq!(Price(-10500).to_decimal_string(), "-1.0500");
    assert_eq!(Price(-5).to_decimal_string(), "-0.0005");
    assert_eq!(Price(1234567).to_decimal_string(), "123.4567");
}

#[test]
fn decimal_text_of_extremes() {
    assert_eq!(Price(i64::MAX).to_decimal_string(), "922337203685477.5807");
    assert_eq!(Price(i64::MIN).to_decimal_string(), "-922337203685477.5808");
}
