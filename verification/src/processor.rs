//! Accounts and the processor that keeps them.
//!
//! [`AccountState`] is a snapshot of balances with checked transitions that
//! return a new snapshot. [`Account`] adds the history of accepted
//! transactions and the set of open disputes, and handles one event at a
//! time: first the lock, then the history, then the balances, and only when
//! all of that went well the bookkeeping. [`InMemoryProcessor`] routes each
//! event to the account of its client.
use crate::laws::lemma_event_keeps_ledger_wf;
use crate::model::carried_out;
use crate::model::ledger_after;
use crate::model::ledger_report;
use crate::model::ledger_wf;
use crate::model::lists_accounts;
use crate::model::past_deposit;
use crate::model::AccountModel;
use crate::model::LedgerModel;
use crate::payment::Amount;
use crate::payment::Chargeback;
use crate::payment::ClientID;
use crate::payment::Deposit;
use crate::payment::Dispute;
use crate::payment::Payment;
use crate::payment::Resolve;
use crate::payment::TransactionID;
use crate::payment::Withdrawal;
use crate::tables::map_contains_key;
use crate::tables::map_entry;
use crate::tables::map_get;
use crate::tables::map_insert;
use crate::tables::map_keys;
use crate::tables::set_contains;
use crate::tables::set_insert;
use crate::tables::set_remove;
use fnv::FnvHashMap;
use fnv::FnvHashSet;
use vstd::prelude::*;

verus! {

/// Why an event was refused.
#[derive(Debug, Clone, Copy, PartialEq, Eq, Structural)]
pub enum Error {
    Overflow,
    Underflow,
    TransactionAlreadyExists,
    TransactionNotFound,
    TransactionNotDisputed,
    TransactionAlreadyDisputed,
    WrongTransactionType,
    AccountLocked,
}

impl Error {
    /// The message shown for this error.
    pub fn message(&self) -> (text: &'static str)
        ensures
            text@ == match *self {
                Error::Overflow => "balance overflow in account"@,
                Error::Underflow => "balance underflow in account"@,
                Error::TransactionAlreadyExists => "transaction already exists"@,
                Error::TransactionNotFound => "transaction not found"@,
                Error::TransactionNotDisputed => "transaction not under dispute"@,
                Error::TransactionAlreadyDisputed => "transaction already under dispute"@,
                Error::WrongTransactionType => "wrong transaction type"@,
                Error::AccountLocked => "account locked"@,
            },
    {
        match self {
            Error::Overflow => "balance overflow in account",
            Error::Underflow => "balance underflow in account",
            Error::TransactionAlreadyExists => "transaction already exists",
            Error::TransactionNotFound => "transaction not found",
            Error::TransactionNotDisputed => "transaction not under dispute",
            Error::TransactionAlreadyDisputed => "transaction already under dispute",
            Error::WrongTransactionType => "wrong transaction type",
            Error::AccountLocked => "account locked",
        }
    }
}

/// A transaction that an account has accepted and may be asked about later.
#[derive(Debug, Clone, Copy, PartialEq, Eq, Structural)]
pub enum PastTransaction {
    Deposit(Amount),
    Withdrawal(Amount),
}

/// State of the account
///
/// The transitions do not change the state they are called on: each returns
/// the state that would follow, so that the caller adopts it only once
/// everything else about the event has gone well. None of them looks at the
/// lock.
#[derive(Debug, Clone, Copy, PartialEq, Eq, Structural)]
pub struct AccountState {
    pub locked: bool,
    /// All funds credited to the account, held or not.
    pub total_funds: Amount,
    /// The part of the total that open disputes hold back.
    pub held_funds: Amount,
}

impl Default for AccountState {
    fn default() -> (state: AccountState)
        ensures
            state == AccountState::zero(),
            state.wf(),
    {
        AccountState { locked: false, total_funds: Amount(0), held_funds: Amount(0) }
    }
}

impl AccountState {
    /// The state of an account that nothing has happened to.
    pub open spec fn zero() -> AccountState {
        AccountState { locked: false, total_funds: Amount(0), held_funds: Amount(0) }
    }

    /// Held funds are part of the total.
    pub open spec fn wf(self) -> bool {
        self.held_funds.0 <= self.total_funds.0
    }

    /// Total minus held: what the client could withdraw now.
    pub open spec fn available(self) -> int {
        self.total_funds.0 - self.held_funds.0
    }

    /// This state with other balances.
    pub open spec fn with_funds(self, total: int, held: int) -> AccountState {
        AccountState {
            locked: self.locked,
            total_funds: Amount(total as u64),
            held_funds: Amount(held as u64),
        }
    }

    /// The total grows by `amount`, if it still fits.
    pub open spec fn after_deposit(self, amount: Amount) -> Result<AccountState, Error> {
        if self.total_funds.0 + amount.0 > u64::MAX {
            Err(Error::Overflow)
        } else {
            Ok(self.with_funds(self.total_funds.0 + amount.0, self.held_funds.0 as int))
        }
    }

    /// The total shrinks by `amount`, if that much is available.
    pub open spec fn after_withdraw(self, amount: Amount) -> Result<AccountState, Error> {
        if self.available() < amount.0 || self.total_funds.0 < amount.0 {
            Err(Error::Underflow)
        } else {
            Ok(self.with_funds(self.total_funds.0 - amount.0, self.held_funds.0 as int))
        }
    }

    /// Held funds grow by `amount`, if that much is available and the sum fits.
    pub open spec fn after_hold(self, amount: Amount) -> Result<AccountState, Error> {
        if self.available() < amount.0 {
            Err(Error::Underflow)
        } else if self.held_funds.0 + amount.0 > u64::MAX {
            Err(Error::Overflow)
        } else {
            Ok(self.with_funds(self.total_funds.0 as int, self.held_funds.0 + amount.0))
        }
    }

    /// Held funds shrink by `amount`, if that much is held.
    pub open spec fn after_unhold(self, amount: Amount) -> Result<AccountState, Error> {
        if self.held_funds.0 < amount.0 {
            Err(Error::Underflow)
        } else {
            Ok(self.with_funds(self.total_funds.0 as int, self.held_funds.0 - amount.0))
        }
    }

    /// Total and held funds both shrink by `amount`, if each has that much,
    /// and the account is locked.
    pub open spec fn after_chargeback(self, amount: Amount) -> Result<AccountState, Error> {
        if self.total_funds.0 < amount.0 || self.held_funds.0 < amount.0 {
            Err(Error::Underflow)
        } else {
            Ok(
                AccountState {
                    locked: true,
                    total_funds: Amount((self.total_funds.0 - amount.0) as u64),
                    held_funds: Amount((self.held_funds.0 - amount.0) as u64),
                },
            )
        }
    }

    /// Total minus held. Asks for a state in which held funds are part of
    /// the total, as they are in every state that an account reaches.
    pub fn available_funds(&self) -> (available: Amount)
        requires
            self.wf(),
        ensures
            available.0 == self.available(),
    {
        Amount(self.total_funds.0 - self.held_funds.0)
    }

    /// The state after a deposit of `amount`.
    #[must_use]
    pub fn deposit(&self, amount: Amount) -> (next: Result<AccountState, Error>)
        ensures
            next == self.after_deposit(amount),
            self.wf() ==> (next matches Ok(state) ==> state.wf()),
    {
        match self.total_funds.checked_add(amount) {
            None => Err(Error::Overflow),
            Some(total_funds) => Ok(
                AccountState { locked: self.locked, total_funds, held_funds: self.held_funds },
            ),
        }
    }

    /// The state after a withdrawal of `amount`.
    #[must_use]
    pub fn withdraw(&self, amount: Amount) -> (next: Result<AccountState, Error>)
        ensures
            next == self.after_withdraw(amount),
            self.wf() ==> (next matches Ok(state) ==> state.wf()),
    {
        // can't withdraw funds that are not available
        match self.total_funds.checked_sub(self.held_funds) {
            None => {
                return Err(Error::Underflow);
            },
            Some(available) => {
                if available.checked_sub(amount).is_none() {
                    return Err(Error::Underflow);
                }
            },
        }
        match self.total_funds.checked_sub(amount) {
            None => Err(Error::Underflow),
            Some(total_funds) => Ok(
                AccountState { locked: self.locked, total_funds, held_funds: self.held_funds },
            ),
        }
    }

    /// The state once `amount` more is held.
    #[must_use]
    pub fn hold(&self, amount: Amount) -> (next: Result<AccountState, Error>)
        ensures
            next == self.after_hold(amount),
            self.wf() ==> (next matches Ok(state) ==> state.wf()),
    {
        // can't hold funds that are not available
        match self.total_funds.checked_sub(self.held_funds) {
            None => {
                return Err(Error::Underflow);
            },
            Some(available) => {
                if available.checked_sub(amount).is_none() {
                    return Err(Error::Underflow);
                }
            },
        }
        match self.held_funds.checked_add(amount) {
            None => Err(Error::Overflow),
            Some(held_funds) => Ok(
                AccountState { locked: self.locked, total_funds: self.total_funds, held_funds },
            ),
        }
    }

    /// The state once `amount` less is held.
    #[must_use]
    pub fn unhold(&self, amount: Amount) -> (next: Result<AccountState, Error>)
        ensures
            next == self.after_unhold(amount),
            self.wf() ==> (next matches Ok(state) ==> state.wf()),
    {
        match self.held_funds.checked_sub(amount) {
            None => Err(Error::Underflow),
            Some(held_funds) => Ok(
                AccountState { locked: self.locked, total_funds: self.total_funds, held_funds },
            ),
        }
    }

    /// The state after a chargeback of `amount`.
    #[must_use]
    pub fn chargeback(&self, amount: Amount) -> (next: Result<AccountState, Error>)
        ensures
            next == self.after_chargeback(amount),
            self.wf() ==> (next matches Ok(state) ==> state.wf()),
    {
        match self.total_funds.checked_sub(amount) {
            None => Err(Error::Underflow),
            Some(total_funds) => match self.held_funds.checked_sub(amount) {
                None => Err(Error::Underflow),
                Some(held_funds) => Ok(AccountState { locked: true, total_funds, held_funds }),
            },
        }
    }
}

/// One client's account: its state, what it has accepted so far, and which
/// of its deposits are under dispute.
#[derive(Debug)]
pub struct Account {
    state: AccountState,
    history: FnvHashMap<TransactionID, PastTransaction>,
    in_dispute: FnvHashSet<TransactionID>,
}

impl View for Account {
    type V = AccountModel;

    closed spec fn view(&self) -> AccountModel {
        AccountModel {
            state: self.state,
            history: self.history@,
            in_dispute: self.in_dispute@,
        }
    }
}

impl Default for Account {
    fn default() -> (account: Account)
        ensures
            account@ == AccountModel::fresh(),
            account@.wf(),
    {
        Account::new()
    }
}

impl Account {
    /// The account of a client not seen before.
    pub fn new() -> (account: Account)
        ensures
            account@ == AccountModel::fresh(),
            account@.wf(),
    {
        Account {
            state: AccountState::default(),
            history: FnvHashMap::default(),
            in_dispute: FnvHashSet::default(),
        }
    }

    /// The balances and the lock as they stand.
    pub fn state(&self) -> (state: &AccountState)
        ensures
            *state == self@.state,
    {
        &self.state
    }

    /// The deposit or withdrawal accepted under `tx`, if there is one.
    pub fn past_transaction(&self, tx: TransactionID) -> (past: Option<PastTransaction>)
        ensures
            past == (if self@.history.contains_key(tx) {
                Some(self@.history[tx])
            } else {
                None
            }),
    {
        match map_get(&self.history, &tx) {
            None => None,
            Some(past) => Some(*past),
        }
    }

    /// Whether the deposit recorded under `tx` is under dispute now.
    pub fn is_disputed(&self, tx: TransactionID) -> (disputed: bool)
        ensures
            disputed == self@.in_dispute.contains(tx),
    {
        set_contains(&self.in_dispute, &tx)
    }

    /// The amount of the deposit recorded under `tx`, for an event that
    /// refers back to it.
    fn get_past_deposit(&self, tx: TransactionID) -> (amount: Result<Amount, Error>)
        ensures
            amount == past_deposit(self@.history, tx),
    {
        match map_get(&self.history, &tx) {
            None => Err(Error::TransactionNotFound),
            Some(PastTransaction::Deposit(amount)) => Ok(*amount),
            // disputing withdrawals is not supported
            Some(PastTransaction::Withdrawal(_)) => Err(Error::WrongTransactionType),
        }
    }

    /// Adds `details.amount` to the account and records the deposit under
    /// `details.tx`, or refuses and changes nothing.
    pub fn deposit(&mut self, details: Deposit) -> (outcome: Result<(), Error>)
        ensures
            carried_out(old(self)@, old(self)@.deposit(details), final(self)@, outcome),
            old(self)@.wf() ==> final(self)@.wf(),
    {
        if self.state.locked {
            return Err(Error::AccountLocked);
        }
        if map_contains_key(&self.history, &details.tx) {
            return Err(Error::TransactionAlreadyExists);
        }
        let new_state = self.state.deposit(details.amount)?;
        self.state = new_state;
        map_insert(&mut self.history, details.tx, PastTransaction::Deposit(details.amount));
        Ok(())
    }

    /// Takes `details.amount` out of the account and records the withdrawal
    /// under `details.tx`, or refuses and changes nothing.
    pub fn withdraw(&mut self, details: Withdrawal) -> (outcome: Result<(), Error>)
        ensures
            carried_out(old(self)@, old(self)@.withdraw(details), final(self)@, outcome),
            old(self)@.wf() ==> final(self)@.wf(),
    {
        if self.state.locked {
            return Err(Error::AccountLocked);
        }
        if map_contains_key(&self.history, &details.tx) {
            return Err(Error::TransactionAlreadyExists);
        }
        self.state = self.state.withdraw(details.amount)?;
        map_insert(&mut self.history, details.tx, PastTransaction::Withdrawal(details.amount));
        Ok(())
    }

    /// Puts the deposit recorded under `details.tx` under dispute and holds
    /// its amount, or refuses and changes nothing.
    pub fn dispute(&mut self, details: Dispute) -> (outcome: Result<(), Error>)
        ensures
            carried_out(old(self)@, old(self)@.dispute(details), final(self)@, outcome),
            old(self)@.wf() ==> final(self)@.wf(),
    {
        let past_tx = self.get_past_deposit(details.tx)?;
        if set_contains(&self.in_dispute, &details.tx) {
            return Err(Error::TransactionAlreadyDisputed);
        }
        self.state = self.state.hold(past_tx)?;
        set_insert(&mut self.in_dispute, details.tx);
        Ok(())
    }

    /// Ends the dispute of the deposit recorded under `details.tx` and
    /// releases its amount, or refuses and changes nothing.
    pub fn resolve(&mut self, details: Resolve) -> (outcome: Result<(), Error>)
        ensures
            carried_out(old(self)@, old(self)@.resolve(details), final(self)@, outcome),
            old(self)@.wf() ==> final(self)@.wf(),
    {
        let past_tx = self.get_past_deposit(details.tx)?;
        if !set_contains(&self.in_dispute, &details.tx) {
            return Err(Error::TransactionNotDisputed);
        }
        self.state = self.state.unhold(past_tx)?;
        set_remove(&mut self.in_dispute, &details.tx);
        Ok(())
    }

    /// Ends the dispute of the deposit recorded under `details.tx` by
    /// taking its amount out of the account, which is locked from then on;
    /// or refuses and changes nothing.
    pub fn chargeback(&mut self, details: Chargeback) -> (outcome: Result<(), Error>)
        ensures
            carried_out(old(self)@, old(self)@.chargeback(details), final(self)@, outcome),
            old(self)@.wf() ==> final(self)@.wf(),
    {
        let past_tx = self.get_past_deposit(details.tx)?;
        if !set_contains(&self.in_dispute, &details.tx) {
            return Err(Error::TransactionNotDisputed);
        }
        self.state = self.state.chargeback(past_tx)?;
        set_remove(&mut self.in_dispute, &details.tx);
        Ok(())
    }
}

/// Payment processor
///
/// What a payment processor offers, stated over the ledger that it keeps.
pub trait Processor {
    /// The accounts that the processor holds, by client.
    spec fn ledger(&self) -> LedgerModel;

    /// Process a payment
    ///
    /// The client of the payment has an account afterwards, whatever
    /// happened. A refused payment changes nothing else, and no payment
    /// changes the account of another client.
    fn process(&mut self, payment: Payment) -> (outcome: Result<(), Error>)
        ensures
            final(self).ledger() == ledger_after(old(self).ledger(), payment),
            outcome == ledger_report(old(self).ledger(), payment),
            ledger_wf(old(self).ledger()) ==> ledger_wf(final(self).ledger()),
    ;

    /// Every account with the client it belongs to, in no particular order.
    fn get_all_accounts(&self) -> (accounts: Vec<(ClientID, AccountState)>)
        ensures
            lists_accounts(self.ledger(), accounts@),
            ledger_wf(self.ledger()) ==> forall|i: int|
                0 <= i < accounts.len() ==> (#[trigger] accounts[i]).1.wf(),
    ;

    /// Every client that has an account, in no particular order.
    fn get_all_clients(&self) -> (clients: Vec<ClientID>)
        ensures
            clients@.no_duplicates(),
            clients@.to_set() == self.ledger().dom(),
            clients@.len() == self.ledger().dom().len(),
    ;

    /// The state of the account of `client_id`, if that client has one.
    fn get_account(&self, client_id: ClientID) -> (state: Option<&AccountState>)
        ensures
            state == (if self.ledger().contains_key(client_id) {
                Some(&self.ledger()[client_id].state)
            } else {
                None
            }),
            ledger_wf(self.ledger()) ==> (state matches Some(found) ==> found.wf()),
    ;
}

/// Simple processor implementation that keeps track of everything in the memory.
#[derive(Debug)]
pub struct InMemoryProcessor {
    accounts: FnvHashMap<ClientID, Account>,
}

impl Default for InMemoryProcessor {
    fn default() -> (processor: InMemoryProcessor)
        ensures
            processor.ledger() == LedgerModel::empty(),
            ledger_wf(processor.ledger()),
    {
        InMemoryProcessor::new()
    }
}

impl InMemoryProcessor {
    /// A processor that has seen no payment.
    pub fn new() -> (processor: InMemoryProcessor)
        ensures
            processor.ledger() == LedgerModel::empty(),
            ledger_wf(processor.ledger()),
    {
        InMemoryProcessor { accounts: FnvHashMap::default() }
    }
}

impl Processor for InMemoryProcessor {
    closed spec fn ledger(&self) -> LedgerModel {
        self.accounts@.map_values(|account: Account| account@)
    }

    fn process(&mut self, payment: Payment) -> (outcome: Result<(), Error>) {
        let account = map_entry(&mut self.accounts, payment.get_client_id()).or_insert(
            Account::new(),
        );
        let outcome = match payment {
            Payment::Deposit(details) => account.deposit(details),
            Payment::Withdrawal(details) => account.withdraw(details),
            Payment::Dispute(details) => account.dispute(details),
            Payment::Resolve(details) => account.resolve(details),
            Payment::Chargeback(details) => account.chargeback(details),
        };
        proof {
            if ledger_wf(old(self).ledger()) {
                lemma_event_keeps_ledger_wf(old(self).ledger(), payment);
            }
        }
        outcome
    }

    fn get_all_accounts(&self) -> (accounts: Vec<(ClientID, AccountState)>) {
        let clients = map_keys(&self.accounts);
        let mut accounts: Vec<(ClientID, AccountState)> = Vec::new();
        let mut i: usize = 0;
        while i < clients.len()
            invariant
                i <= clients.len(),
                accounts.len() == i,
                clients@.to_set() == self.accounts@.dom(),
                forall|j: int|
                    0 <= j < i ==> (#[trigger] accounts[j]).0 == clients[j] && accounts[j].1
                        == self.accounts@[clients[j]]@.state,
            decreases clients.len() - i,
        {
            let client = clients[i];
            if let Some(account) = map_get(&self.accounts, &client) {
                accounts.push((client, account.state));
            }
            i += 1;
        }
        proof {
            clients@.unique_seq_to_set();
            assert(self.ledger().dom() =~= self.accounts@.dom());
            assert forall|client: ClientID| #[trigger]
                self.ledger().contains_key(client) implies exists|j: int|
                0 <= j < accounts.len() && (#[trigger] accounts[j]).0 == client by {
                let j = choose|j: int| 0 <= j < clients.len() && clients[j] == client;
                assert(accounts[j].0 == client);
            }
        }
        accounts
    }

    fn get_all_clients(&self) -> (clients: Vec<ClientID>) {
        let clients = map_keys(&self.accounts);
        proof {
            clients@.unique_seq_to_set();
        }
        clients
    }

    fn get_account(&self, client_id: ClientID) -> (state: Option<&AccountState>) {
        match map_get(&self.accounts, &client_id) {
            Some(account) => Some(&account.state),
            None => None,
        }
    }
}

} // verus!
