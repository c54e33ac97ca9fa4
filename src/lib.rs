//! Preflight of ledger operations: the decisions around an execution
//! engine's simulations, from reading the ledger through restoring archived
//! entries to the fixed-shape record a call returns.

pub mod auth;
pub mod dispatch;
pub mod driver;
pub mod error;
pub mod ledger;
pub mod marshal;
pub mod preflight;
pub mod restore;
pub mod sim;
pub mod storage;
