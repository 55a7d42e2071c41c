//! A multi-token ledger for a CosmWasm host, verified with Verus.
//!
//! The ledger tracks how much of each token, named by an integer id, each
//! account holds, and which operators an account has approved. It moves,
//! mints and burns tokens, one or a batch at a time, and a batch is applied
//! wholly or not at all. The host calls it once per message and lends it
//! its storage for that call.
//!
//! - [`model`] says in mathematics what balances are and what a transfer
//!   does to them.
//! - [`state`] is the store: the handles on the host's storage, the few
//!   functions that read and write it, and the staged balance operations.
//! - [`contract`] holds the commands and the questions, each with a
//!   contract that says exactly what it returns and what it changes.
//! - [`supply`] proves that tokens are conserved, and [`guarantees`] the
//!   other guarantees that hold across operations.
//! - [`msg`] and [`error`] are the messages and the failures.

pub mod contract;
pub mod error;
pub mod guarantees;
pub mod model;
pub mod msg;
pub mod state;
pub mod supply;
