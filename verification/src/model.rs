//! The ledger as mathematics.
//!
//! An account is its balances, the deposits and withdrawals it has accepted,
//! and the set of deposits under dispute. Each event either yields the next
//! account or is refused with an error and changes nothing. Everything the
//! executable code promises is stated over the functions of this module.
use crate::payment::Amount;
use crate::payment::Chargeback;
use crate::payment::ClientID;
use crate::payment::Deposit;
use crate::payment::Dispute;
use crate::payment::Payment;
use crate::payment::Resolve;
use crate::payment::TransactionID;
use crate::payment::Withdrawal;
use crate::processor::AccountState;
use crate::processor::Error;
use crate::processor::PastTransaction;
use vstd::prelude::*;

verus! {

/// One client's account: balances, accepted transactions, open disputes.
#[verifier::ext_equal]
pub struct AccountModel {
    pub state: AccountState,
    pub history: Map<TransactionID, PastTransaction>,
    pub in_dispute: Set<TransactionID>,
}

/// The amount of the deposit recorded under `tx`, for an event that refers
/// back to one. A withdrawal cannot be referred to.
pub open spec fn past_deposit(
    history: Map<TransactionID, PastTransaction>,
    tx: TransactionID,
) -> Result<Amount, Error> {
    if !history.contains_key(tx) {
        Err(Error::TransactionNotFound)
    } else {
        match history[tx] {
            PastTransaction::Deposit(amount) => Ok(amount),
            PastTransaction::Withdrawal(_) => Err(Error::WrongTransactionType),
        }
    }
}

impl AccountModel {
    /// The account of a client not seen before: unlocked, empty, nothing recorded.
    pub open spec fn fresh() -> AccountModel {
        AccountModel {
            state: AccountState::zero(),
            history: Map::empty(),
            in_dispute: Set::empty(),
        }
    }

    /// What holds of every account that events have produced: held funds
    /// are part of the total, and whatever is under dispute is a recorded
    /// deposit.
    pub open spec fn wf(self) -> bool {
        &&& self.state.wf()
        &&& forall|tx: TransactionID| #[trigger]
            self.in_dispute.contains(tx) ==> self.history.contains_key(tx)
                && self.history[tx] is Deposit
    }

    /// A deposit: refused on a locked account, then for a transaction id
    /// already recorded, then if the total would not fit.
    pub open spec fn deposit(self, details: Deposit) -> Result<AccountModel, Error> {
        if self.state.locked {
            Err(Error::AccountLocked)
        } else if self.history.contains_key(details.tx) {
            Err(Error::TransactionAlreadyExists)
        } else {
            match self.state.after_deposit(details.amount) {
                Err(e) => Err(e),
                Ok(state) => Ok(
                    AccountModel {
                        state,
                        history: self.history.insert(
                            details.tx,
                            PastTransaction::Deposit(details.amount),
                        ),
                        in_dispute: self.in_dispute,
                    },
                ),
            }
        }
    }

    /// A withdrawal: refused on a locked account, then for a transaction id
    /// already recorded, then if the available funds do not cover it.
    pub open spec fn withdraw(self, details: Withdrawal) -> Result<AccountModel, Error> {
        if self.state.locked {
            Err(Error::AccountLocked)
        } else if self.history.contains_key(details.tx) {
            Err(Error::TransactionAlreadyExists)
        } else {
            match self.state.after_withdraw(details.amount) {
                Err(e) => Err(e),
                Ok(state) => Ok(
                    AccountModel {
                        state,
                        history: self.history.insert(
                            details.tx,
                            PastTransaction::Withdrawal(details.amount),
                        ),
                        in_dispute: self.in_dispute,
                    },
                ),
            }
        }
    }

    /// A dispute holds the amount of a recorded deposit that is not under
    /// dispute yet. A lock does not stand in its way.
    pub open spec fn dispute(self, details: Dispute) -> Result<AccountModel, Error> {
        match past_deposit(self.history, details.tx) {
            Err(e) => Err(e),
            Ok(amount) => if self.in_dispute.contains(details.tx) {
                Err(Error::TransactionAlreadyDisputed)
            } else {
                match self.state.after_hold(amount) {
                    Err(e) => Err(e),
                    Ok(state) => Ok(
                        AccountModel {
                            state,
                            history: self.history,
                            in_dispute: self.in_dispute.insert(details.tx),
                        },
                    ),
                }
            },
        }
    }

    /// A resolve releases the amount of a deposit that is under dispute.
    pub open spec fn resolve(self, details: Resolve) -> Result<AccountModel, Error> {
        match past_deposit(self.history, details.tx) {
            Err(e) => Err(e),
            Ok(amount) => if !self.in_dispute.contains(details.tx) {
                Err(Error::TransactionNotDisputed)
            } else {
                match self.state.after_unhold(amount) {
                    Err(e) => Err(e),
                    Ok(state) => Ok(
                        AccountModel {
                            state,
                            history: self.history,
                            in_dispute: self.in_dispute.remove(details.tx),
                        },
                    ),
                }
            },
        }
    }

    /// A chargeback takes the amount of a deposit that is under dispute out
    /// of the account, ends the dispute and locks the account.
    pub open spec fn chargeback(self, details: Chargeback) -> Result<AccountModel, Error> {
        match past_deposit(self.history, details.tx) {
            Err(e) => Err(e),
            Ok(amount) => if !self.in_dispute.contains(details.tx) {
                Err(Error::TransactionNotDisputed)
            } else {
                match self.state.after_chargeback(amount) {
                    Err(e) => Err(e),
                    Ok(state) => Ok(
                        AccountModel {
                            state,
                            history: self.history,
                            in_dispute: self.in_dispute.remove(details.tx),
                        },
                    ),
                }
            },
        }
    }

    /// The account that `payment` leads to, or why it is refused.
    pub open spec fn apply(self, payment: Payment) -> Result<AccountModel, Error> {
        match payment {
            Payment::Deposit(details) => self.deposit(details),
            Payment::Withdrawal(details) => self.withdraw(details),
            Payment::Dispute(details) => self.dispute(details),
            Payment::Resolve(details) => self.resolve(details),
            Payment::Chargeback(details) => self.chargeback(details),
        }
    }

    /// The account once `payment` has been handled: a refused payment
    /// leaves it as it was.
    pub open spec fn after(self, payment: Payment) -> AccountModel {
        match self.apply(payment) {
            Ok(next) => next,
            Err(_) => self,
        }
    }

    /// The account once every payment of `payments` has been handled, in order.
    pub open spec fn after_all(self, payments: Seq<Payment>) -> AccountModel
        decreases payments.len(),
    {
        if payments.len() == 0 {
            self
        } else {
            self.after_all(payments.drop_last()).after(payments.last())
        }
    }
}

/// What an event reports: nothing on success, the error otherwise.
pub open spec fn report(step: Result<AccountModel, Error>) -> Result<(), Error> {
    match step {
        Ok(_) => Ok(()),
        Err(e) => Err(e),
    }
}

/// Whether `after` and `reported` are what `step` asks for, for an account
/// that was `before`: on success the next account and `Ok`, on refusal the
/// same account and the error.
pub open spec fn carried_out(
    before: AccountModel,
    step: Result<AccountModel, Error>,
    after: AccountModel,
    reported: Result<(), Error>,
) -> bool {
    &&& reported == report(step)
    &&& after == match step {
        Ok(next) => next,
        Err(_) => before,
    }
}

/// All the accounts, by client.
pub type LedgerModel = Map<ClientID, AccountModel>;

/// The account of `client`; one not seen yet has a fresh account.
pub open spec fn account_of(ledger: LedgerModel, client: ClientID) -> AccountModel {
    if ledger.contains_key(client) {
        ledger[client]
    } else {
        AccountModel::fresh()
    }
}

/// Whether every account of the ledger is well formed.
pub open spec fn ledger_wf(ledger: LedgerModel) -> bool {
    forall|client: ClientID| #[trigger]
        ledger.contains_key(client) ==> ledger[client].wf()
}

/// The ledger once `payment` has been handled: its client has an account
/// from now on, which is what the payment made of it; no other account changes.
pub open spec fn ledger_after(ledger: LedgerModel, payment: Payment) -> LedgerModel {
    ledger.insert(payment.client(), account_of(ledger, payment.client()).after(payment))
}

/// What handling `payment` reports.
pub open spec fn ledger_report(ledger: LedgerModel, payment: Payment) -> Result<(), Error> {
    report(account_of(ledger, payment.client()).apply(payment))
}

/// Whether `listing` shows every account of the ledger exactly once, each
/// with the state it is in. The order is left open.
pub open spec fn lists_accounts(ledger: LedgerModel, listing: Seq<(ClientID, AccountState)>) -> bool {
    &&& listing.len() == ledger.dom().len()
    &&& forall|i: int, j: int|
        0 <= i < j < listing.len() ==> (#[trigger] listing[i]).0 != (#[trigger] listing[j]).0
    &&& forall|i: int|
        0 <= i < listing.len() ==> ledger.contains_key((#[trigger] listing[i]).0) && listing[i].1
            == ledger[listing[i].0].state
    &&& forall|client: ClientID| #[trigger]
        ledger.contains_key(client) ==> exists|i: int|
            0 <= i < listing.len() && (#[trigger] listing[i]).0 == client
}

/// The ledger once every payment of `payments` has been handled, in order,
/// starting with no accounts.
pub open spec fn ledger_after_all(payments: Seq<Payment>) -> LedgerModel
    decreases payments.len(),
{
    if payments.len() == 0 {
        Map::empty()
    } else {
        ledger_after(ledger_after_all(payments.drop_last()), payments.last())
    }
}

} // verus!
