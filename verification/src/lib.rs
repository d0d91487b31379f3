//! A batch payment ledger: deposits, withdrawals, disputes, resolves and
//! chargebacks are applied in order to per-client accounts, with exact
//! fixed-point arithmetic and with every refused event leaving its account
//! untouched.
//!
//! - [`payment`]: amounts, events, and the raw records they are read from.
//! - [`decimal`]: amounts as decimal text.
//! - [`processor`]: account states, accounts, and the processor.
//! - [`model`]: what accounts and ledgers are, as mathematics.
//! - [`laws`]: what holds of every account and every ledger.
//! - [`tables`]: what is taken on trust of the hash tables.
pub mod decimal;
pub mod laws;
pub mod model;
pub mod payment;
pub mod processor;
pub mod tables;
