use payment_processor::payment::Amount;
use payment_processor::processor::AccountState;
use payment_processor::processor::Error;

fn state(total: u64, held: u64) -> AccountState {
    AccountState {
        locked: false,
        total_funds: Amount(total),
        held_funds: Amount(held),
    }
}

#[test]
fn default_state_is_unlocked_and_empty() {
    let fresh = AccountState::default();
    assert_eq!(fresh, state(0, 0));
    assert!(!fresh.locked);
    assert_eq!(fresh.available_funds(), Amount(0));
}

#[test]
fn available_is_total_minus_held() {
    assert_eq!(state(8, 7).available_funds(), Amount(1));
    assert_eq!(state(8, 8).available_funds(), Amount(0));
    assert_eq!(state(u64::MAX, 0).available_funds(), Amount(u64::MAX));
}

#[test]
fn deposit_adds_to_total_only() {
    assert_eq!(state(5, 2).deposit(Amount(3)), Ok(state(8, 2)));
    assert_eq!(state(5, 2).deposit(Amount(0)), Ok(state(5, 2)));
    assert_eq!(
        state(0, 0).deposit(Amount(u64::MAX)),
        Ok(state(u64::MAX, 0))
    );
}

#[test]
fn deposit_overflow() {
    assert_eq!(state(u64::MAX, 0).deposit(Amount(1)), Err(Error::Overflow));
    assert_eq!(
        state(u64::MAX - 4, 0).deposit(Amount(5)),
        Err(Error::Overflow)
    );
    assert_eq!(
        state(u64::MAX - 4, 0).deposit(Amount(4)),
        Ok(state(u64::MAX, 0))
    );
}

#[test]
fn deposit_after_the_largest_deposit_overflows() {
    let full = state(0, 0).deposit(Amount(u64::MAX)).unwrap();
    for amount in [1, 2, 10_000, u64::MAX] {
        assert_eq!(full.deposit(Amount(amount)), Err(Error::Overflow));
    }
    assert_eq!(full.deposit(Amount(0)), Ok(full));
}

#[test]
fn withdraw_takes_from_total_only() {
    assert_eq!(state(8, 2).withdraw(Amount(5)), Ok(state(3, 2)));
    assert_eq!(state(8, 2).withdraw(Amount(0)), Ok(state(8, 2)));
}

#[test]
fn withdraw_all_available_but_not_one_more() {
    for (total, held) in [(8, 2), (8, 0), (8, 8), (0, 0), (u64::MAX, 1)] {
        let before = state(total, held);
        let available = before.available_funds();
        assert_eq!(before.withdraw(available), Ok(state(held, held)));
        assert_eq!(
            before.withdraw(Amount(available.0 + 1)),
            Err(Error::Underflow)
        );
    }
}

#[test]
fn withdraw_with_more_held_than_total_is_an_underflow() {
    assert_eq!(state(2, 5).withdraw(Amount(0)), Err(Error::Underflow));
    assert_eq!(state(2, 5).withdraw(Amount(1)), Err(Error::Underflow));
}

#[test]
fn hold_moves_available_funds_to_held() {
    assert_eq!(state(8, 2).hold(Amount(6)), Ok(state(8, 8)));
    assert_eq!(state(8, 2).hold(Amount(1)), Ok(state(8, 3)));
    assert_eq!(state(8, 2).hold(Amount(0)), Ok(state(8, 2)));
}

#[test]
fn hold_underflow() {
    assert_eq!(state(8, 2).hold(Amount(7)), Err(Error::Underflow));
    assert_eq!(state(0, 0).hold(Amount(1)), Err(Error::Underflow));
    assert_eq!(state(2, 5).hold(Amount(0)), Err(Error::Underflow));
}

#[test]
fn unhold_releases_held_funds() {
    assert_eq!(state(8, 7).unhold(Amount(7)), Ok(state(8, 0)));
    assert_eq!(state(8, 7).unhold(Amount(3)), Ok(state(8, 4)));
}

#[test]
fn unhold_underflow() {
    assert_eq!(state(8, 7).unhold(Amount(8)), Err(Error::Underflow));
    assert_eq!(state(8, 0).unhold(Amount(1)), Err(Error::Underflow));
}

#[test]
fn chargeback_takes_from_both_and_locks() {
    let charged = state(3, 2).chargeback(Amount(2)).unwrap();
    assert_eq!(charged.total_funds, Amount(1));
    assert_eq!(charged.held_funds, Amount(0));
    assert!(charged.locked);
    let nothing = state(3, 2).chargeback(Amount(0)).unwrap();
    assert_eq!((nothing.total_funds, nothing.held_funds), (Amount(3), Amount(2)));
    assert!(nothing.locked);
}

#[test]
fn chargeback_underflow() {
    assert_eq!(state(3, 2).chargeback(Amount(3)), Err(Error::Underflow));
    assert_eq!(state(1, 2).chargeback(Amount(2)), Err(Error::Underflow));
    assert_eq!(state(0, 0).chargeback(Amount(1)), Err(Error::Underflow));
}

#[test]
fn transitions_do_not_look_at_the_lock() {
    let locked = AccountState {
        locked: true,
        ..state(8, 2)
    };
    let expect = |total, held| {
        Ok(AccountState {
            locked: true,
            ..state(total, held)
        })
    };
    assert_eq!(locked.deposit(Amount(1)), expect(9, 2));
    assert_eq!(locked.withdraw(Amount(1)), expect(7, 2));
    assert_eq!(locked.hold(Amount(1)), expect(8, 3));
    assert_eq!(locked.unhold(Amount(1)), expect(8, 1));
    assert_eq!(locked.chargeback(Amount(1)), expect(7, 1));
}

#[test]
fn transitions_leave_the_state_they_start_from() {
    let before = state(8, 2);
    let _ = before.deposit(Amount(1));
    let _ = before.withdraw(Amount(1));
    let _ = before.hold(Amount(1));
    let _ = before.unhold(Amount(1));
    let _ = before.chargeback(Amount(1));
    assert_eq!(before, state(8, 2));
}

#[test]
fn successful_transitions_keep_held_within_total() {
    let amounts = [0, 1, 2, 3, 5, 8, 13];
    for total in amounts {
        for held in amounts {
            if held > total {
                continue;
            }
            for amount in amounts {
                let before = state(total, held);
                let results = [
                    before.deposit(Amount(amount)),
                    before.withdraw(Amount(amount)),
                    before.hold(Amount(amount)),
                    before.unhold(Amount(amount)),
                    before.chargeback(Amount(amount)),
                ];
                for after in results.into_iter().flatten() {
                    assert!(after.held_funds <= after.total_funds);
                }
            }
        }
    }
}

#[test]
fn error_messages() {
    assert_eq!(Error::Overflow.message(), "balance overflow in account");
    assert_eq!(Error::Underflow.message(), "balance underflow in account");
    assert_eq!(
        Error::TransactionAlreadyExists.message(),
        "transaction already exists"
    );
    assert_eq!(Error::TransactionNotFound.message(), "transaction not found");
    assert_eq!(
        Error::TransactionNotDisputed.message(),
        "transaction not under dispute"
    );
    assert_eq!(
        Error::TransactionAlreadyDisputed.message(),
        "transaction already under dispute"
    );
    assert_eq!(Error::WrongTransactionType.message(), "wrong transaction type");
    assert_eq!(Error::AccountLocked.message(), "account locked");
}
