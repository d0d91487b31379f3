use payment_processor::payment::Amount;
use payment_processor::payment::DeserializationError;
use payment_processor::payment::Payment;
use payment_processor::payment::RawInputRecord;

// Reads one row into a raw record: the columns are type, client, tx, amount,
// and an empty amount means that there is none.
fn raw_record(row: &csv::StringRecord) -> RawInputRecord {
    let amount = match &row[3] {
        "" => None,
        text => Some(Amount::from_decimal(text.as_bytes()).unwrap()),
    };
    RawInputRecord {
        kind: row[0].to_string(),
        client: row[1].parse().unwrap(),
        tx: row[2].parse().unwrap(),
        amount,
    }
}

fn record(kind: &str, amount: Option<u64>) -> RawInputRecord {
    RawInputRecord {
        kind: kind.to_string(),
        client: 7,
        tx: 42,
        amount: amount.map(Amount),
    }
}

#[test]
fn test_payment_deserialization() -> Result<(), DeserializationError> {
    let input = r#"type,client,tx,amount
deposit,1,1,1.0
withdrawal,1,1,1.0
dispute,1,1,
resolve,1,1,
chargeback,1,1,
"#;

    let mut reader = csv::ReaderBuilder::new()
        .trim(csv::Trim::All)
        .from_reader(input.as_bytes());
    let mut rows = 0;
    for row in reader.records() {
        let payment = raw_record(&row.unwrap());
        println!("{:?}", payment);
        let _payment: Payment = Payment::try_from(payment)?;
        rows += 1;
    }
    assert_eq!(rows, 5);
    Ok(())
}

#[test]
fn each_type_word_gives_its_payment() {
    match Payment::try_from(record("deposit", Some(15_000))) {
        Ok(Payment::Deposit(d)) => {
            assert_eq!((d.client, d.tx, d.amount), (7, 42, Amount(15_000)))
        }
        other => panic!("unexpected {:?}", other),
    }
    match Payment::try_from(record("withdrawal", Some(1))) {
        Ok(Payment::Withdrawal(d)) => assert_eq!((d.client, d.tx, d.amount), (7, 42, Amount(1))),
        other => panic!("unexpected {:?}", other),
    }
    match Payment::try_from(record("dispute", None)) {
        Ok(Payment::Dispute(d)) => assert_eq!((d.client, d.tx), (7, 42)),
        other => panic!("unexpected {:?}", other),
    }
    match Payment::try_from(record("resolve", None)) {
        Ok(Payment::Resolve(d)) => assert_eq!((d.client, d.tx), (7, 42)),
        other => panic!("unexpected {:?}", other),
    }
    match Payment::try_from(record("chargeback", None)) {
        Ok(Payment::Chargeback(d)) => assert_eq!((d.client, d.tx), (7, 42)),
        other => panic!("unexpected {:?}", other),
    }
}

#[test]
fn deposit_and_withdrawal_need_an_amount() {
    for kind in ["deposit", "withdrawal"] {
        assert!(matches!(
            Payment::try_from(record(kind, None)),
            Err(DeserializationError::MissingAmount)
        ));
    }
}

#[test]
fn dispute_resolve_chargeback_take_no_amount() {
    for kind in ["dispute", "resolve", "chargeback"] {
        assert!(matches!(
            Payment::try_from(record(kind, Some(0))),
            Err(DeserializationError::SuperfluousAmount)
        ));
    }
}

#[test]
fn unknown_type_word_is_kept_in_the_error() {
    for kind in ["Deposit", "DEPOSIT", "refund", "", " deposit", "deposit "] {
        for amount in [None, Some(5)] {
            match Payment::try_from(record(kind, amount)) {
                Err(DeserializationError::InvalidType(word)) => assert_eq!(word, kind),
                other => panic!("unexpected {:?}", other),
            }
        }
    }
}

#[test]
fn deserialization_error_messages() {
    assert_eq!(
        DeserializationError::MissingAmount.message(),
        "missing amount value"
    );
    assert_eq!(
        DeserializationError::SuperfluousAmount.message(),
        "superfluous amount value"
    );
    assert_eq!(
        DeserializationError::InvalidType("refund".to_string()).message(),
        "invalid type value: refund"
    );
}

#[test]
fn client_id_of_every_kind_of_payment() {
    let kinds = [
        ("deposit", Some(1)),
        ("withdrawal", Some(1)),
        ("dispute", None),
        ("resolve", None),
        ("chargeback", None),
    ];
    for (kind, amount) in kinds {
        let mut raw = record(kind, amount);
        raw.client = 65_535;
        assert_eq!(Payment::try_from(raw).unwrap().get_client_id(), 65_535);
    }
}

#[test]
fn amounts_are_ordered_by_their_units() {
    assert!(Amount(1) < Amount(2));
    assert!(Amount(2) > Amount(1));
    assert_eq!(Amount(3), Amount(3));
    assert_eq!(Amount(2).max(Amount(9)), Amount(9));
    assert_eq!(Amount::default(), Amount(0));
    assert_eq!(*Amount(17), 17);
}

#[test]
fn checked_add_reports_what_does_not_fit() {
    assert_eq!(Amount(2).checked_add(Amount(3)), Some(Amount(5)));
    assert_eq!(
        Amount(u64::MAX - 1).checked_add(Amount(1)),
        Some(Amount(u64::MAX))
    );
    assert_eq!(Amount(u64::MAX).checked_add(Amount(1)), None);
    assert_eq!(Amount(u64::MAX).checked_add(Amount(0)), Some(Amount(u64::MAX)));
}

#[test]
fn checked_sub_reports_what_would_go_below_zero() {
    assert_eq!(Amount(5).checked_sub(Amount(3)), Some(Amount(2)));
    assert_eq!(Amount(5).checked_sub(Amount(5)), Some(Amount(0)));
    assert_eq!(Amount(5).checked_sub(Amount(6)), None);
    assert_eq!(Amount(0).checked_sub(Amount(1)), None);
}
