use vstd::prelude::*;

use crate::instructions::cron_repayment::spec_cron_repayment;
use crate::instructions::lend_credit_token::spec_lend_credit_token;
use crate::instructions::withdraw::spec_withdraw_collateral;
use crate::oracle::SimplePriceOracle;
use crate::state::account::AccountId;
use crate::state::loan::LoanAccount;
use crate::state::protocol::ProtocolState;

verus! {

/// For a fixed loan, the outstanding debt moves monotonically: any
/// successful borrow raises it or keeps it, and any successful
/// automated repayment or withdrawal lowers it or keeps it — whatever
/// the protocol configuration, balances, oracle record and clock.
pub proof fn lemma_debt_monotonic(
    protocol: ProtocolState,
    loan: LoanAccount,
    user: AccountId,
    vault_balance: u64,
    user_credit_balance: u64,
    oracle: SimplePriceOracle,
    now: i64,
)
    ensures
        spec_lend_credit_token(protocol, loan, oracle, now) matches Ok(o)
            ==> o.loan.remaining_debt >= loan.remaining_debt,
        spec_cron_repayment(protocol, loan, vault_balance, user_credit_balance, oracle, now)
            matches Ok(o) ==> o.loan.remaining_debt <= loan.remaining_debt,
        spec_withdraw_collateral(
            protocol,
            loan,
            user,
            vault_balance,
            user_credit_balance,
            oracle,
            now,
        ) matches Ok(o) ==> o.loan.remaining_debt <= loan.remaining_debt,
{
}

} // verus!
