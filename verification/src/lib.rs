//! Accounting core of a liquid-staking vault.
//!
//! The vault turns a staked asset into a claim token at a moving exchange
//! rate, groups unbonding requests into batches, and settles them in order.
//! Every operation is a verified transition on explicit state values.

pub mod admin;
pub mod batches;
pub mod bonding;
pub mod contract;
pub mod decimal;
pub mod laws;
pub mod msg;
pub mod query;
pub mod registry;
pub mod settlement;
pub mod slashing;
pub mod state;
pub mod tokens;
pub mod unbonding;
pub mod validity;
pub mod vault;
