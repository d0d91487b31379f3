//! What holds of every account, whatever events it has seen.
//!
//! Each proof function states one law over the functions of the model, the
//! same ones that the contracts of the executable code are written in. The
//! laws speak of single events, of runs of events on one account, and of
//! runs of events on a whole ledger.
use crate::model::account_of;
use crate::model::ledger_after;
use crate::model::ledger_after_all;
use crate::model::ledger_report;
use crate::model::ledger_wf;
use crate::model::past_deposit;
use crate::model::AccountModel;
use crate::model::LedgerModel;
use crate::payment::Amount;
use crate::payment::ClientID;
use crate::payment::Deposit;
use crate::payment::Dispute;
use crate::payment::Payment;
use crate::payment::TransactionID;
use crate::processor::AccountState;
use crate::processor::Error;
use vstd::prelude::*;

verus! {

/// A successful transition of a state in which held funds are part of the
/// total leads to such a state again.
pub proof fn lemma_transitions_keep_state_wf(state: AccountState, amount: Amount)
    requires
        state.wf(),
    ensures
        state.after_deposit(amount) matches Ok(next) ==> next.wf(),
        state.after_withdraw(amount) matches Ok(next) ==> next.wf(),
        state.after_hold(amount) matches Ok(next) ==> next.wf(),
        state.after_unhold(amount) matches Ok(next) ==> next.wf(),
        state.after_chargeback(amount) matches Ok(next) ==> next.wf(),
{
}

/// Holding funds never fails for want of room: where held funds are part of
/// the total, whatever is available fits on top of them.
pub proof fn lemma_hold_never_overflows(state: AccountState, amount: Amount)
    requires
        state.wf(),
    ensures
        state.after_hold(amount) != Err::<AccountState, Error>(Error::Overflow),
{
}

/// An event, accepted or refused, leaves a well-formed account well formed.
pub proof fn lemma_event_keeps_account_wf(account: AccountModel, payment: Payment)
    requires
        account.wf(),
    ensures
        account.after(payment).wf(),
{
}

/// A run of events leaves a well-formed account well formed.
pub proof fn lemma_events_keep_account_wf(account: AccountModel, payments: Seq<Payment>)
    requires
        account.wf(),
    ensures
        account.after_all(payments).wf(),
    decreases payments.len(),
{
    if payments.len() > 0 {
        lemma_events_keep_account_wf(account, payments.drop_last());
        lemma_event_keeps_account_wf(account.after_all(payments.drop_last()), payments.last());
    }
}

/// An event leaves a ledger of well-formed accounts a ledger of well-formed
/// accounts, also when it opens an account.
pub proof fn lemma_event_keeps_ledger_wf(ledger: LedgerModel, payment: Payment)
    requires
        ledger_wf(ledger),
    ensures
        ledger_wf(ledger_after(ledger, payment)),
{
    lemma_event_keeps_account_wf(account_of(ledger, payment.client()), payment);
}

/// Every ledger that a run of events builds from nothing holds well-formed
/// accounts only.
pub proof fn lemma_ledger_always_wf(payments: Seq<Payment>)
    ensures
        ledger_wf(ledger_after_all(payments)),
    decreases payments.len(),
{
    if payments.len() > 0 {
        lemma_ledger_always_wf(payments.drop_last());
        lemma_event_keeps_ledger_wf(ledger_after_all(payments.drop_last()), payments.last());
    }
}

/// After any run of events, in every account, held funds are at most the
/// total, and neither is negative.
pub proof fn lemma_held_within_total(payments: Seq<Payment>, client: ClientID)
    ensures
        0 <= account_of(ledger_after_all(payments), client).state.held_funds.0 <= account_of(
            ledger_after_all(payments),
            client,
        ).state.total_funds.0,
{
    lemma_ledger_always_wf(payments);
}

/// After any run of events, in every account, whatever is under dispute is
/// in the history, and is a deposit.
pub proof fn lemma_disputed_is_recorded_deposit(
    payments: Seq<Payment>,
    client: ClientID,
    tx: TransactionID,
)
    requires
        account_of(ledger_after_all(payments), client).in_dispute.contains(tx),
    ensures
        account_of(ledger_after_all(payments), client).history.contains_key(tx),
        account_of(ledger_after_all(payments), client).history[tx] is Deposit,
{
    lemma_ledger_always_wf(payments);
}

/// A refused event changes no account: not that of its client, which is as
/// if the event had never come, and not any other.
pub proof fn lemma_refused_event_changes_nothing(
    ledger: LedgerModel,
    payment: Payment,
    client: ClientID,
)
    requires
        ledger_report(ledger, payment) is Err,
    ensures
        account_of(ledger_after(ledger, payment), client) == account_of(ledger, client),
{
}

/// An event changes the account of its own client only.
pub proof fn lemma_other_accounts_untouched(
    ledger: LedgerModel,
    payment: Payment,
    client: ClientID,
)
    requires
        client != payment.client(),
    ensures
        ledger_after(ledger, payment).contains_key(client) == ledger.contains_key(client),
        account_of(ledger_after(ledger, payment), client) == account_of(ledger, client),
{
}

/// The account that a ledger holds for a client is the account that the
/// client's own events, in their order, make of a fresh one.
pub proof fn lemma_ledger_is_per_client(payments: Seq<Payment>, client: ClientID)
    ensures
        account_of(ledger_after_all(payments), client) == AccountModel::fresh().after_all(
            payments.filter(|payment: Payment| payment.client() == client),
        ),
    decreases payments.len(),
{
    let of_client = |payment: Payment| payment.client() == client;
    reveal(Seq::filter);
    if payments.len() > 0 {
        let earlier = payments.drop_last();
        lemma_ledger_is_per_client(earlier, client);
        if of_client(payments.last()) {
            let own = payments.filter(of_client);
            assert(own.drop_last() == earlier.filter(of_client));
        }
    }
}

/// What an event adds to the deposits of an account that is `before`: its
/// amount, if it is a deposit and is accepted.
pub open spec fn deposited_by(before: AccountModel, payment: Payment) -> int {
    match payment {
        Payment::Deposit(details) if before.apply(payment) is Ok => details.amount.0 as int,
        _ => 0,
    }
}

/// What an event adds to the withdrawals of an account that is `before`:
/// its amount, if it is a withdrawal and is accepted.
pub open spec fn withdrawn_by(before: AccountModel, payment: Payment) -> int {
    match payment {
        Payment::Withdrawal(details) if before.apply(payment) is Ok => details.amount.0 as int,
        _ => 0,
    }
}

/// What an event adds to the chargebacks of an account that is `before`:
/// the amount of the deposit it refers to, if it is a chargeback and is
/// accepted.
pub open spec fn charged_back_by(before: AccountModel, payment: Payment) -> int {
    match payment {
        Payment::Chargeback(details) if before.apply(payment) is Ok => match past_deposit(
            before.history,
            details.tx,
        ) {
            Ok(amount) => amount.0 as int,
            Err(_) => 0,
        },
        _ => 0,
    }
}

/// The sum, over a run of events on an account that starts as `start`, of
/// what `part` gives for each event and the account that the event meets.
pub open spec fn tally(
    start: AccountModel,
    payments: Seq<Payment>,
    part: spec_fn(AccountModel, Payment) -> int,
) -> int
    decreases payments.len(),
{
    if payments.len() == 0 {
        0
    } else {
        tally(start, payments.drop_last(), part) + part(
            start.after_all(payments.drop_last()),
            payments.last(),
        )
    }
}

/// The sum of the deposits that were accepted in a run of events.
pub open spec fn deposits_accepted(start: AccountModel, payments: Seq<Payment>) -> int {
    tally(start, payments, |before: AccountModel, payment: Payment| deposited_by(before, payment))
}

/// The sum of the withdrawals that were accepted in a run of events.
pub open spec fn withdrawals_accepted(start: AccountModel, payments: Seq<Payment>) -> int {
    tally(start, payments, |before: AccountModel, payment: Payment| withdrawn_by(before, payment))
}

/// The sum of the chargebacks that went through in a run of events.
pub open spec fn chargebacks_completed(start: AccountModel, payments: Seq<Payment>) -> int {
    tally(
        start,
        payments,
        |before: AccountModel, payment: Payment| charged_back_by(before, payment),
    )
}

/// The total of an account is what it started with, plus the deposits it
/// accepted, minus the withdrawals it accepted, minus the chargebacks that
/// went through.
pub proof fn lemma_total_is_sum_of_events(start: AccountModel, payments: Seq<Payment>)
    ensures
        start.after_all(payments).state.total_funds.0 == start.state.total_funds.0
            + deposits_accepted(start, payments) - withdrawals_accepted(start, payments)
            - chargebacks_completed(start, payments),
    decreases payments.len(),
{
    if payments.len() > 0 {
        lemma_total_is_sum_of_events(start, payments.drop_last());
    }
}

/// In a ledger built from nothing, the total of each client's account is the
/// sum of that client's accepted deposits, minus its accepted withdrawals,
/// minus its chargebacks that went through.
pub proof fn lemma_client_total_is_sum_of_events(payments: Seq<Payment>, client: ClientID)
    ensures
        ({
            let own = payments.filter(|payment: Payment| payment.client() == client);
            let fresh = AccountModel::fresh();
            account_of(ledger_after_all(payments), client).state.total_funds.0
                == deposits_accepted(fresh, own) - withdrawals_accepted(fresh, own)
                - chargebacks_completed(fresh, own)
        }),
{
    lemma_ledger_is_per_client(payments, client);
    lemma_total_is_sum_of_events(
        AccountModel::fresh(),
        payments.filter(|payment: Payment| payment.client() == client),
    );
}

/// A dispute that is accepted, followed at once by its resolve, gives back
/// the account as it was: total, held funds and all the rest.
pub proof fn lemma_dispute_then_resolve_restores(account: AccountModel, details: Dispute)
    requires
        account.dispute(details) is Ok,
    ensures
        account.dispute(details)->Ok_0.resolve(details) == Ok::<AccountModel, Error>(account),
{
    let disputed = account.dispute(details)->Ok_0;
    assert(disputed.in_dispute.remove(details.tx) =~= account.in_dispute);
}

/// What an account has recorded under a transaction id stays recorded,
/// unchanged, whatever events follow.
pub proof fn lemma_history_is_kept(
    account: AccountModel,
    payments: Seq<Payment>,
    tx: TransactionID,
)
    requires
        account.history.contains_key(tx),
    ensures
        account.after_all(payments).history.contains_key(tx),
        account.after_all(payments).history[tx] == account.history[tx],
    decreases payments.len(),
{
    if payments.len() > 0 {
        lemma_history_is_kept(account, payments.drop_last(), tx);
    }
}

/// Once a deposit or withdrawal has been accepted, a later deposit or
/// withdrawal with the same transaction id is refused as already existing,
/// whatever came between, as long as the account is not locked by then.
pub proof fn lemma_duplicate_id_is_refused(
    account: AccountModel,
    first: Payment,
    between: Seq<Payment>,
    second: Payment,
)
    requires
        first is Deposit || first is Withdrawal,
        second is Deposit || second is Withdrawal,
        second.tx() == first.tx(),
        account.apply(first) is Ok,
        !account.after(first).after_all(between).state.locked,
    ensures
        account.after(first).after_all(between).apply(second) == Err::<AccountModel, Error>(
            Error::TransactionAlreadyExists,
        ),
{
    lemma_history_is_kept(account.after(first), between, first.tx());
}

/// On a locked account every deposit and every withdrawal is refused
/// because of the lock, before anything else is looked at.
pub proof fn lemma_lock_refuses_deposits_and_withdrawals(account: AccountModel, payment: Payment)
    requires
        account.state.locked,
        payment is Deposit || payment is Withdrawal,
    ensures
        account.apply(payment) == Err::<AccountModel, Error>(Error::AccountLocked),
{
}

/// Once the largest amount has been deposited, no further deposit of
/// anything but zero fits.
pub proof fn lemma_deposit_beyond_maximum_overflows(state: AccountState, amount: Amount)
    requires
        state.after_deposit(Amount(u64::MAX)) is Ok,
        amount.0 != 0,
    ensures
        state.after_deposit(Amount(u64::MAX))->Ok_0.after_deposit(amount) == Err::<
            AccountState,
            Error,
        >(Error::Overflow),
{
}

/// The same for an account: after an accepted deposit of the largest
/// amount, a deposit of anything but zero under a new transaction id is
/// refused with an overflow.
pub proof fn lemma_account_deposit_beyond_maximum_overflows(
    account: AccountModel,
    largest: Deposit,
    next: Deposit,
)
    requires
        largest.amount.0 == u64::MAX,
        account.deposit(largest) is Ok,
        next.tx != largest.tx,
        !account.history.contains_key(next.tx),
        next.amount.0 != 0,
    ensures
        account.deposit(largest)->Ok_0.deposit(next) == Err::<AccountModel, Error>(
            Error::Overflow,
        ),
{
}

/// All that is available can be withdrawn.
pub proof fn lemma_can_withdraw_all_available(state: AccountState)
    requires
        state.wf(),
    ensures
        state.after_withdraw(Amount(state.available() as u64)) is Ok,
{
}

/// Nothing above what is available can be withdrawn: one unit more is
/// already an underflow.
pub proof fn lemma_cannot_withdraw_beyond_available(state: AccountState, amount: Amount)
    requires
        amount.0 > state.available(),
    ensures
        state.after_withdraw(amount) == Err::<AccountState, Error>(Error::Underflow),
{
}

/// Disputing a recorded deposit whose amount is above what is available now
/// is refused with an underflow, and the set of disputes stays as it was.
pub proof fn lemma_dispute_beyond_available_underflows(account: AccountModel, details: Dispute)
    requires
        past_deposit(account.history, details.tx) matches Ok(amount) && amount.0
            > account.state.available(),
        !account.in_dispute.contains(details.tx),
    ensures
        account.dispute(details) == Err::<AccountModel, Error>(Error::Underflow),
        account.after(Payment::Dispute(details)).in_dispute == account.in_dispute,
{
}

} // verus!
