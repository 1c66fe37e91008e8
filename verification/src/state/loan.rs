use vstd::prelude::*;

use crate::state::account::AccountId;

verus! {

/// A per-user loan ledger, created with all counters at zero.
///
/// `collateral_amount` is the recorded deposit baseline, not the live
/// vault balance: the live balance may exceed it through external yield
/// accrual on the held asset.
#[derive(Clone, Copy, Debug, PartialEq, Eq, Structural)]
pub struct LoanAccount {
    /// The loan owner's identity.
    pub user: AccountId,
    /// Deposited collateral baseline.
    pub collateral_amount: u64,
    /// Outstanding debt in credit-asset units.
    pub remaining_debt: u64,
    /// Cumulative yield realized by repayments and the final withdrawal.
    pub yield_earned: u64,
    /// The oracle price account this loan was bound to at initialization,
    /// so later operations cannot be pointed at a substituted feed.
    pub oracle_price_account: AccountId,
}

} // verus!
