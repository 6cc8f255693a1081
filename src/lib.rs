//! Off-chain execution engine of a decentralised exchange on a UTXO ledger.
//!
//! The engine compiles a batch of matched instructions (order fills, pool swaps) into one
//! transaction with exact value deltas, reconciles the entities it predicts against the
//! finished transaction, and tracks every entity's confirmed, predicted and unconfirmed
//! states so that chain reorganisations can be unwound.

pub mod bytes;
pub mod chain;
pub mod context;
pub mod dao;
pub mod entity;
pub mod executor;
pub mod gate;
pub mod interpreter;
pub mod ledger;
pub mod repo;
pub mod table;
