//! A collateralized credit protocol's risk/state engine.
//!
//! Users lock a yield-bearing collateral asset, borrow a protocol-issued
//! credit asset up to a loan-to-value cap priced by an oracle, and the
//! protocol claws debt back from the yield accruing on the collateral.
//! This crate holds the verified core: the persistent account model
//! (protocol configuration, per-user collateral vault, per-user loan
//! ledger), the oracle-price validation, and the lifecycle operations
//! that transition this state under checked arithmetic. Token transfers,
//! mints and burns belong to an external ledger: each operation returns
//! the amounts to move, and the host applies them.

mod error;
mod instructions;
mod laws;
mod oracle;
mod state;

pub use error::CredXError;
pub use laws::lemma_debt_monotonic;
pub use instructions::cron_repayment::cron_repayment;
pub use instructions::cron_repayment::spec_cron_repayment;
pub use instructions::cron_repayment::RepayOutcome;
pub use instructions::deposit_collateral::deposit_collateral;
pub use instructions::deposit_collateral::spec_deposit_collateral;
pub use instructions::get_oracle_price::get_price;
pub use instructions::get_oracle_price::normalize_price;
pub use instructions::get_oracle_price::spec_normalize_price;
pub use instructions::get_oracle_price::PriceData;
pub use instructions::initialize_loan::initialize_loan;
pub use instructions::initialize_loan::spec_initialize_loan;
pub use instructions::initialize_loan::supported_collateral;
pub use instructions::initialize_loan::JITO_SOL_MINT_HI;
pub use instructions::initialize_loan::JITO_SOL_MINT_LO;
pub use instructions::initialize_loan::MSOL_MINT_HI;
pub use instructions::initialize_loan::MSOL_MINT_LO;
pub use instructions::initialize_protocol::initialize_protocol;
pub use instructions::initialize_protocol::spec_initialize_protocol;
pub use instructions::lend_credit_token::lend_credit_token;
pub use instructions::lend_credit_token::spec_borrow_value;
pub use instructions::lend_credit_token::spec_lend_credit_token;
pub use instructions::lend_credit_token::BorrowOutcome;
pub use instructions::withdraw::spec_withdraw_collateral;
pub use instructions::withdraw::withdraw_collateral;
pub use instructions::withdraw::WithdrawOutcome;
pub use oracle::create_simple_oracle;
pub use oracle::update_simple_oracle;
pub use oracle::SimplePriceOracle;
pub use oracle::PRICE_MAX_AGE_SECONDS;
pub use state::account::AccountId;
pub use state::collateral::CollateralVault;
pub use state::loan::LoanAccount;
pub use state::protocol::ProtocolState;
pub use state::protocol::BPS_DENOMINATOR;
pub use state::protocol::MAX_LTV_RATIO_BPS;
