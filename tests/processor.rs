use ledger::{Price, TransactionEvent, TransactionProcessor, TransactionType};

fn ev(ty: TransactionType, client_id: u16, tx: u32, amount: i64) -> TransactionEvent {
    TransactionEvent { ty, client_id, tx, amount: Price(amount) }
}

#[test]
fn processor_drains_queue_in_order() {
    let (mut producer, consumer) = rtrb::RingBuffer::new(8);
    producer.push(ev(TransactionType::Deposit, 1, 1, 100000)).unwrap();
    producer.push(ev(TransactionType::Dispute, 1, 1, 0)).unwrap();
    producer.push(ev(TransactionType::Chargeback, 1, 1, 0)).unwrap();
    producer.push(ev(TransactionType::Deposit, 2, 2, -30000)).unwrap();
    drop(producer);

    let mut processor = TransactionProcessor::new(consumer);
    let mut turns = 0;
    while processor.poll() {
        turns += 1;
        assert!(turns < 100);
    }
    assert_eq!(turns, 4);
    let mut accounts = processor.into_accounts();
    accounts.sort_by_key(|(id, _)| *id);
    assert_eq!(accounts.len(), 2);
    assert_eq!(accounts[0].0, 1);
    assert!(accounts[0].1.locked);
    assert_eq!(accounts[0].1.total, Price(0));
    assert_eq!(accounts[1].0, 2);
    assert_eq!(accounts[1].1.total, Price(30000));
}

#[test]
fn processor_keeps_polling_while_producer_lives() {
    let (producer, consumer) = rtrb::RingBuffer::<TransactionEvent>::new(2);
    let mut processor = TransactionProcessor::new(consumer);
    assert!(processor.poll());
    drop(producer);
    assert!(!processor.poll());
    assert!(processor.into_accounts().is_empty());
}
