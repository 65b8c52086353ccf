//! A verified fungible-token ledger.
//!
//! The ledger keeps per-account balances, per-(owner, spender) allowances and a
//! total supply. Every operation either commits all of its writes or none, and
//! every state that the operations can reach keeps the total supply equal to
//! the sum of all balances.
//!
//! - [`token`] holds the ledger, [`token::TokenBDB`].
//! - [`rules`] holds what each operation decides, as functions of the entries
//!   it reads: a host that keeps the entries in a store of its own calls them
//!   between its reads and its writes.
//! - [`model`] and [`laws`] hold the state machine that the ledger follows and
//!   what is proved of it.
//! - [`sparse`] holds the map in which the ledger keeps its amounts, and
//!   [`address`] and [`error`] the identifiers and the refusals.
//! - [`counter`] and [`hello`] hold two small companions: a counter and a
//!   greeter.

pub mod address;
pub mod counter;
pub mod error;
pub mod hello;
pub mod laws;
pub mod model;
pub mod rules;
pub mod sparse;
pub mod token;
