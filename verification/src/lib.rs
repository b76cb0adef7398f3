//! Custody and accounting for a shared liquidity vault.
//!
//! A depositor registers a stake record, deposits tokens into the vault while
//! the record is credited, and withdraws tokens while it is debited. The ledger
//! that stores the accounts and the service that moves tokens are outside this
//! crate: every handler is a step function that tells its host what to ask of
//! them next and is called again with the answer.

pub mod address;
pub mod books;
pub mod codec;
pub mod error;
pub mod instructions;
pub mod ledger;
pub mod processor;
pub mod programs;
pub mod provision;
pub mod state;
