use payment_processor::payment::Amount;
use payment_processor::payment::Deposit;
use payment_processor::payment::Dispute;
use payment_processor::payment::Payment;
use payment_processor::payment::Resolve;
use payment_processor::payment::Withdrawal;
use payment_processor::processor::Error;
use payment_processor::processor::InMemoryProcessor;
use payment_processor::processor::Processor;

type Result<T> = std::result::Result<T, Error>;

#[test]
fn basic_happy_case() -> Result<()> {
    let mut processor = InMemoryProcessor::default();
    let client = 1;

    processor.process(Payment::Deposit(Deposit {
        client,
        tx: 3,
        amount: Amount(1),
    }))?;

    processor.process(Payment::Withdrawal(Withdrawal {
        client,
        tx: 4,
        amount: Amount(1),
    }))?;

    assert_eq!(*processor.get_account(client).unwrap().total_funds, 0);
    assert_eq!(*processor.get_account(client).unwrap().available_funds(), 0);

    Ok(())
}

#[test]
fn basic_multi_payment_math_checks_out() -> Result<()> {
    let mut processor = InMemoryProcessor::default();
    let client = 3;

    processor
        .process(Payment::Deposit(Deposit {
            client,
            tx: 3,
            amount: Amount(1),
        }))
        .unwrap();

    processor
        .process(Payment::Deposit(Deposit {
            client,
            tx: 4,
            amount: Amount(4),
        }))
        .unwrap();

    processor
        .process(Payment::Withdrawal(Withdrawal {
            client,
            tx: 5,
            amount: Amount(2),
        }))
        .unwrap();

    processor
        .process(Payment::Withdrawal(Withdrawal {
            client,
            tx: 6,
            amount: Amount(2),
        }))
        .unwrap();

    assert_eq!(*processor.get_account(client).unwrap().total_funds, 1);
    assert_eq!(*processor.get_account(client).unwrap().available_funds(), 1);

    Ok(())
}

// One long walk through disputes and resolves on a single account, checking
// the balances after every step.
#[test]
fn funds_on_hold_math_and_basic_flow() -> Result<()> {
    let mut processor = InMemoryProcessor::default();
    let client = 3;

    processor.process(Payment::Deposit(Deposit {
        client,
        tx: 3,
        amount: Amount(7),
    }))?;

    processor.process(Payment::Deposit(Deposit {
        client,
        tx: 4,
        amount: Amount(1),
    }))?;

    assert_eq!(*processor.get_account(client).unwrap().total_funds, 8);
    assert_eq!(*processor.get_account(client).unwrap().held_funds, 0);
    assert_eq!(*processor.get_account(client).unwrap().available_funds(), 8);

    processor.process(Payment::Dispute(Dispute { client, tx: 3 }))?;

    assert_eq!(*processor.get_account(client).unwrap().total_funds, 8);
    assert_eq!(*processor.get_account(client).unwrap().held_funds, 7);
    assert_eq!(*processor.get_account(client).unwrap().available_funds(), 1);

    // withdraw everything while rest is disputed
    processor
        .process(Payment::Withdrawal(Withdrawal {
            client,
            tx: 12,
            amount: Amount(1),
        }))
        .unwrap();

    assert_eq!(*processor.get_account(client).unwrap().total_funds, 7);
    assert_eq!(*processor.get_account(client).unwrap().held_funds, 7);
    assert_eq!(*processor.get_account(client).unwrap().available_funds(), 0);

    // can't dispute same tx twice
    assert_eq!(
        processor.process(Payment::Dispute(Dispute { client, tx: 3 })),
        Err(Error::TransactionAlreadyDisputed)
    );

    // can't resolve wrong tx
    assert_eq!(
        processor.process(Payment::Resolve(Resolve { client, tx: 500 })),
        Err(Error::TransactionNotFound)
    );

    // can't resolve tx not under dispute
    assert_eq!(
        processor.process(Payment::Resolve(Resolve { client, tx: 4 })),
        Err(Error::TransactionNotDisputed)
    );

    // resolve dispute now
    processor.process(Payment::Resolve(Resolve { client, tx: 3 }))?;

    assert_eq!(*processor.get_account(client).unwrap().total_funds, 7);
    assert_eq!(*processor.get_account(client).unwrap().available_funds(), 7);
    assert_eq!(*processor.get_account(client).unwrap().held_funds, 0);

    // can dispute this tx again (?)
    processor.process(Payment::Dispute(Dispute { client, tx: 3 }))?;
    processor.process(Payment::Resolve(Resolve { client, tx: 3 }))?;

    processor
        .process(Payment::Withdrawal(Withdrawal {
            client,
            tx: 13,
            amount: Amount(7),
        }))
        .unwrap();

    assert_eq!(*processor.get_account(client).unwrap().total_funds, 0);
    assert_eq!(*processor.get_account(client).unwrap().available_funds(), 0);
    assert_eq!(*processor.get_account(client).unwrap().held_funds, 0);

    // trying to dispute this tx again would cause a negative balance
    assert_eq!(
        processor.process(Payment::Dispute(Dispute { client, tx: 3 })),
        Err(Error::Underflow)
    );

    assert_eq!(*processor.get_account(client).unwrap().total_funds, 0);
    assert_eq!(*processor.get_account(client).unwrap().available_funds(), 0);
    assert_eq!(*processor.get_account(client).unwrap().held_funds, 0);

    Ok(())
}

#[test]
fn withdrawal_underflow() -> Result<()> {
    let mut processor = InMemoryProcessor::default();
    let client = 3;

    processor
        .process(Payment::Deposit(Deposit {
            client,
            tx: 3,
            amount: Amount(1),
        }))
        .unwrap();

    assert_eq!(
        processor.process(Payment::Withdrawal(Withdrawal {
            client,
            tx: 4,
            amount: Amount(2),
        })),
        Err(Error::Underflow)
    );

    Ok(())
}

#[test]
fn dispute_unknown_tx() -> Result<()> {
    let mut processor = InMemoryProcessor::default();
    let client = 3;

    assert_eq!(
        processor.process(Payment::Dispute(Dispute { client, tx: 4 })),
        Err(Error::TransactionNotFound)
    );

    Ok(())
}

#[test]
fn chargeback_unknown_tx() -> Result<()> {
    let mut processor = InMemoryProcessor::default();
    let client = 3;

    assert_eq!(
        processor.process(Payment::Chargeback(Dispute { client, tx: 4 })),
        Err(Error::TransactionNotFound)
    );

    Ok(())
}

#[test]
fn basic_chargeback_flow() -> Result<()> {
    let mut processor = InMemoryProcessor::default();
    let client = 3;

    processor.process(Payment::Deposit(Deposit {
        client,
        tx: 0,
        amount: Amount(2),
    }))?;

    processor.process(Payment::Deposit(Deposit {
        client,
        tx: 1,
        amount: Amount(1),
    }))?;

    processor.process(Payment::Dispute(Dispute { client, tx: 0 }))?;
    assert_eq!(*processor.get_account(client).unwrap().total_funds, 3);
    assert_eq!(*processor.get_account(client).unwrap().available_funds(), 1);
    assert_eq!(*processor.get_account(client).unwrap().held_funds, 2);
    assert_eq!(processor.get_account(client).unwrap().locked, false);

    assert_eq!(
        processor.process(Payment::Chargeback(Resolve { client, tx: 1 })),
        Err(Error::TransactionNotDisputed)
    );
    assert_eq!(processor.get_account(client).unwrap().locked, false);

    processor.process(Payment::Chargeback(Dispute { client, tx: 0 }))?;

    assert_eq!(*processor.get_account(client).unwrap().total_funds, 1);
    assert_eq!(*processor.get_account(client).unwrap().available_funds(), 1);
    assert_eq!(*processor.get_account(client).unwrap().held_funds, 0);
    assert_eq!(processor.get_account(client).unwrap().locked, true);

    assert_eq!(
        processor.process(Payment::Withdrawal(Withdrawal {
            client,
            tx: 2,
            amount: Amount(1),
        })),
        Err(Error::AccountLocked)
    );
    Ok(())
}
