//! A two-party, two-phase token escrow.
//!
//! An initializer locks tokens in a temporary holding account and records the
//! terms of the exchange in an escrow record. A taker later completes the
//! exchange: the locked tokens go to the taker, the taker's tokens go to the
//! account the initializer named. Between the two phases the holding account
//! is controlled by an authority derived from the program's own identity, so
//! neither party can move the locked tokens alone.
//!
//! The library decides; it moves no tokens itself. Each handler validates the
//! accounts it is handed, updates the escrow record, and returns the token
//! ledger calls that the caller has to invoke.

pub mod account;
pub mod authority;
pub mod bytes;
pub mod error;
pub mod instruction;
pub mod laws;
pub mod processor;
pub mod pubkey;
pub mod rent;
pub mod state;
pub mod token;
