//! The persistent account model: protocol configuration, per-user
//! collateral vault, and per-user loan ledger.

pub mod account;
pub mod collateral;
pub mod loan;
pub mod protocol;
