//! The lifecycle operations of the lending engine. Each is a total
//! state-transition function: it validates, computes with checked
//! arithmetic, and either returns the complete successor state together
//! with the ledger amounts to move, or an error and no change.

pub mod cron_repayment;
pub mod deposit_collateral;
pub mod get_oracle_price;
pub mod initialize_loan;
pub mod initialize_protocol;
pub mod lend_credit_token;
pub mod withdraw;
