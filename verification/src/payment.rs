//! Amounts of money and the events that move them.
//!
//! An [`Amount`] counts ten-thousandths of a currency unit in a `u64`, so
//! every balance is an exact integer. A [`Payment`] is one of five events;
//! [`RawInputRecord`] is the loosely typed row an event is read from, and
//! `Payment::try_from` is the only way from one to the other.
use crate::processor::AccountState;
use vstd::prelude::*;
use vstd::std_specs::convert::TryFromSpecImpl;

verus! {

pub type ClientID = u16;

pub type TransactionID = u32;

/// Why a raw record is not a payment.
#[derive(Debug)]
pub enum DeserializationError {
    /// A deposit or withdrawal came without an amount.
    MissingAmount,
    /// A dispute, resolve or chargeback came with an amount.
    SuperfluousAmount,
    /// The type column holds none of the five known words; the word is kept.
    InvalidType(String),
}

impl Clone for DeserializationError {
    fn clone(&self) -> (copy: DeserializationError)
        ensures
            copy == *self,
    {
        match self {
            DeserializationError::MissingAmount => DeserializationError::MissingAmount,
            DeserializationError::SuperfluousAmount => DeserializationError::SuperfluousAmount,
            DeserializationError::InvalidType(kind) => DeserializationError::InvalidType(
                kind.clone(),
            ),
        }
    }
}

impl DeserializationError {
    /// The message shown for this error.
    pub fn message(&self) -> (text: String)
        ensures
            text@ == match *self {
                DeserializationError::MissingAmount => "missing amount value"@,
                DeserializationError::SuperfluousAmount => "superfluous amount value"@,
                DeserializationError::InvalidType(kind) => "invalid type value: "@ + kind@,
            },
    {
        match self {
            DeserializationError::MissingAmount => "missing amount value".to_owned(),
            DeserializationError::SuperfluousAmount => "superfluous amount value".to_owned(),
            DeserializationError::InvalidType(kind) => {
                let mut text = "invalid type value: ".to_owned();
                text.append(kind.as_str());
                text
            },
        }
    }
}

/// Money, in units of 10^-4: `Amount(15_000)` is 1.5.
#[derive(Debug, Clone, Copy, PartialEq, Eq, Structural, PartialOrd, Ord)]
pub struct Amount(pub u64);

impl Default for Amount {
    fn default() -> (zero: Amount)
        ensures
            zero.0 == 0,
    {
        Amount(0)
    }
}

impl std::ops::Deref for Amount {
    type Target = u64;

    fn deref(&self) -> (units: &u64)
        ensures
            *units == self.0,
    {
        &self.0
    }
}

impl Amount {
    /// The sum, unless it does not fit.
    pub fn checked_add(self, other: Amount) -> (sum: Option<Amount>)
        ensures
            match sum {
                Some(s) => s.0 == self.0 + other.0,
                None => self.0 + other.0 > u64::MAX,
            },
    {
        match self.0.checked_add(other.0) {
            Some(units) => Some(Amount(units)),
            None => None,
        }
    }

    /// The difference, unless `other` is the larger.
    pub fn checked_sub(self, other: Amount) -> (difference: Option<Amount>)
        ensures
            match difference {
                Some(d) => d.0 == self.0 - other.0,
                None => self.0 < other.0,
            },
    {
        match self.0.checked_sub(other.0) {
            Some(units) => Some(Amount(units)),
            None => None,
        }
    }
}

/// One row of input before it is known to be a payment.
#[derive(Debug)]
pub struct RawInputRecord {
    /// The word in the type column, already trimmed.
    pub kind: String,
    pub client: ClientID,
    pub tx: TransactionID,
    pub amount: Option<Amount>,
}

impl Clone for RawInputRecord {
    fn clone(&self) -> (copy: RawInputRecord)
        ensures
            copy == *self,
    {
        RawInputRecord {
            kind: self.kind.clone(),
            client: self.client,
            tx: self.tx,
            amount: self.amount,
        }
    }
}

/// One row of output: a client with the balances and the lock of its account.
#[derive(Debug, Clone, Copy, PartialEq, Eq, Structural)]
pub struct RawOutputRecord {
    pub client: ClientID,
    pub available: Amount,
    pub held: Amount,
    pub total: Amount,
    pub locked: bool,
}

impl RawOutputRecord {
    /// The row that shows `state` as the account of `client`.
    pub fn new(client: ClientID, state: &AccountState) -> (row: RawOutputRecord)
        requires
            state.wf(),
        ensures
            row.client == client,
            row.available.0 == state.total_funds.0 - state.held_funds.0,
            row.held == state.held_funds,
            row.total == state.total_funds,
            row.locked == state.locked,
    {
        RawOutputRecord {
            client,
            available: state.available_funds(),
            held: state.held_funds,
            total: state.total_funds,
            locked: state.locked,
        }
    }
}

/// What a deposit or a withdrawal says.
#[derive(Debug, Clone, Copy, PartialEq, Eq, Structural)]
pub struct DepositDetails {
    pub client: ClientID,
    pub tx: TransactionID,
    pub amount: Amount,
}

impl TryFrom<RawInputRecord> for DepositDetails {
    type Error = DeserializationError;

    fn try_from(raw: RawInputRecord) -> (details: Result<DepositDetails, DeserializationError>) {
        match raw.amount {
            None => Err(DeserializationError::MissingAmount),
            Some(amount) => Ok(DepositDetails { client: raw.client, tx: raw.tx, amount }),
        }
    }
}

impl TryFromSpecImpl<RawInputRecord> for DepositDetails {
    open spec fn obeys_try_from_spec() -> bool {
        true
    }

    /// The record's client, transaction and amount; the amount must be there.
    open spec fn try_from_spec(raw: RawInputRecord) -> Result<
        DepositDetails,
        DeserializationError,
    > {
        match raw.amount {
            None => Err(DeserializationError::MissingAmount),
            Some(amount) => Ok(DepositDetails { client: raw.client, tx: raw.tx, amount }),
        }
    }
}

/// What a dispute, a resolve or a chargeback says: which transaction it is about.
#[derive(Debug, Clone, Copy, PartialEq, Eq, Structural)]
pub struct DisputeDetails {
    pub client: ClientID,
    pub tx: TransactionID,
}

impl TryFrom<RawInputRecord> for DisputeDetails {
    type Error = DeserializationError;

    fn try_from(raw: RawInputRecord) -> (details: Result<DisputeDetails, DeserializationError>) {
        if raw.amount.is_some() {
            return Err(DeserializationError::SuperfluousAmount);
        }
        Ok(DisputeDetails { client: raw.client, tx: raw.tx })
    }
}

impl TryFromSpecImpl<RawInputRecord> for DisputeDetails {
    open spec fn obeys_try_from_spec() -> bool {
        true
    }

    /// The record's client and transaction; an amount must not be there.
    open spec fn try_from_spec(raw: RawInputRecord) -> Result<
        DisputeDetails,
        DeserializationError,
    > {
        match raw.amount {
            Some(_) => Err(DeserializationError::SuperfluousAmount),
            None => Ok(DisputeDetails { client: raw.client, tx: raw.tx }),
        }
    }
}

pub type Deposit = DepositDetails;

pub type Withdrawal = DepositDetails;

pub type Dispute = DisputeDetails;

pub type Resolve = DisputeDetails;

pub type Chargeback = DisputeDetails;

/// One event of the stream.
#[derive(Debug, Clone, Copy, PartialEq, Eq, Structural)]
pub enum Payment {
    Deposit(Deposit),
    Withdrawal(Withdrawal),
    Dispute(Dispute),
    Resolve(Resolve),
    Chargeback(Chargeback),
}

impl Payment {
    /// The client whose account the event is for.
    pub open spec fn client(self) -> ClientID {
        match self {
            Payment::Deposit(d) => d.client,
            Payment::Withdrawal(d) => d.client,
            Payment::Dispute(d) => d.client,
            Payment::Resolve(d) => d.client,
            Payment::Chargeback(d) => d.client,
        }
    }

    /// The transaction that the event records or refers to.
    pub open spec fn tx(self) -> TransactionID {
        match self {
            Payment::Deposit(d) => d.tx,
            Payment::Withdrawal(d) => d.tx,
            Payment::Dispute(d) => d.tx,
            Payment::Resolve(d) => d.tx,
            Payment::Chargeback(d) => d.tx,
        }
    }

    /// Get client id
    ///
    /// Every kind of payment has one.
    pub fn get_client_id(&self) -> (client: ClientID)
        ensures
            client == self.client(),
    {
        match self {
            Payment::Deposit(d) => d.client,
            Payment::Withdrawal(d) => d.client,
            Payment::Dispute(d) => d.client,
            Payment::Resolve(d) => d.client,
            Payment::Chargeback(d) => d.client,
        }
    }
}

/// `str`'s `==`: two strings are equal when they hold the same characters.
pub assume_specification[ <str as PartialEq>::eq ](left: &str, right: &str) -> (same: bool)
    ensures
        same == (left@ == right@),
;

/// Whether `kind` names an event that carries an amount of its own.
pub open spec fn moves_money(kind: Seq<char>) -> bool {
    kind == "deposit"@ || kind == "withdrawal"@
}

/// Whether `kind` names an event that points back at an earlier deposit.
pub open spec fn refers_back(kind: Seq<char>) -> bool {
    kind == "dispute"@ || kind == "resolve"@ || kind == "chargeback"@
}

impl TryFrom<RawInputRecord> for Payment {
    type Error = DeserializationError;

    fn try_from(raw: RawInputRecord) -> (payment: Result<Payment, DeserializationError>) {
        if raw.kind.as_str().eq("deposit") {
            match DepositDetails::try_from(raw) {
                Ok(details) => Ok(Payment::Deposit(details)),
                Err(e) => Err(e),
            }
        } else if raw.kind.as_str().eq("withdrawal") {
            match DepositDetails::try_from(raw) {
                Ok(details) => Ok(Payment::Withdrawal(details)),
                Err(e) => Err(e),
            }
        } else if raw.kind.as_str().eq("dispute") {
            match DisputeDetails::try_from(raw) {
                Ok(details) => Ok(Payment::Dispute(details)),
                Err(e) => Err(e),
            }
        } else if raw.kind.as_str().eq("resolve") {
            match DisputeDetails::try_from(raw) {
                Ok(details) => Ok(Payment::Resolve(details)),
                Err(e) => Err(e),
            }
        } else if raw.kind.as_str().eq("chargeback") {
            match DisputeDetails::try_from(raw) {
                Ok(details) => Ok(Payment::Chargeback(details)),
                Err(e) => Err(e),
            }
        } else {
            Err(DeserializationError::InvalidType(raw.kind))
        }
    }
}

impl TryFromSpecImpl<RawInputRecord> for Payment {
    open spec fn obeys_try_from_spec() -> bool {
        true
    }

    /// The payment that a record stands for. The type word is matched as it
    /// is, in lower case; the first of the five words that fits decides.
    open spec fn try_from_spec(raw: RawInputRecord) -> Result<Payment, DeserializationError> {
        let kind = raw.kind@;
        if moves_money(kind) {
            match raw.amount {
                None => Err(DeserializationError::MissingAmount),
                Some(amount) => {
                    let details = DepositDetails { client: raw.client, tx: raw.tx, amount };
                    if kind == "deposit"@ {
                        Ok(Payment::Deposit(details))
                    } else {
                        Ok(Payment::Withdrawal(details))
                    }
                },
            }
        } else if refers_back(kind) {
            match raw.amount {
                Some(_) => Err(DeserializationError::SuperfluousAmount),
                None => {
                    let details = DisputeDetails { client: raw.client, tx: raw.tx };
                    if kind == "dispute"@ {
                        Ok(Payment::Dispute(details))
                    } else if kind == "resolve"@ {
                        Ok(Payment::Resolve(details))
                    } else {
                        Ok(Payment::Chargeback(details))
                    }
                },
            }
        } else {
            Err(DeserializationError::InvalidType(raw.kind))
        }
    }
}

} // verus!
