use vstd::prelude::*;

use crate::error::CredXError;
use crate::oracle::{SimplePriceOracle, PRICE_MAX_AGE_SECONDS};
use crate::state::loan::LoanAccount;
use crate::state::protocol::ProtocolState;

verus! {

/// What a successful automated repayment hands back: the updated loan
/// and the amount of credit asset the host must burn from the caller's
/// pre-delegated balance.
#[derive(Clone, Copy, Debug, PartialEq, Eq, Structural)]
pub struct RepayOutcome {
    /// The loan with its debt reduced and the consumed yield recorded.
    pub loan: LoanAccount,
    /// Credit-asset units to burn; zero for the explicit no-yield no-op.
    pub burned: u64,
}

/// What an automated repayment returns: when yield has accrued above
/// the baseline, the debt shrinks by the smaller of the yield's value
/// at the oracle price and the debt itself, and the consumed yield is
/// added to the realized total; with no yield the call succeeds and
/// changes nothing; otherwise the first failing check's error.
pub open spec fn spec_cron_repayment(
    protocol: ProtocolState,
    loan: LoanAccount,
    vault_balance: u64,
    user_credit_balance: u64,
    oracle: SimplePriceOracle,
    now: i64,
) -> Result<RepayOutcome, CredXError> {
    if protocol.is_locked {
        Err(CredXError::ProtocolLocked)
    } else if loan.remaining_debt == 0 {
        Err(CredXError::NoOutstandingDebt)
    } else if vault_balance < loan.collateral_amount {
        Err(CredXError::NegativeYield)
    } else if vault_balance == loan.collateral_amount {
        Ok(RepayOutcome { loan, burned: 0 })
    } else {
        match oracle.spec_get_price(now) {
            Err(e) => Err(e),
            Ok(price) => {
                let yield_amount = vault_balance - loan.collateral_amount;
                let yield_value = yield_amount * price;
                if yield_value > i64::MAX {
                    Err(CredXError::MathOverflow)
                } else {
                    let repay = if yield_value < loan.remaining_debt {
                        yield_value
                    } else {
                        loan.remaining_debt as int
                    };
                    if user_credit_balance < repay {
                        Err(CredXError::InsufficientCreditTokens)
                    } else if loan.yield_earned + yield_amount > u64::MAX {
                        Err(CredXError::MathOverflow)
                    } else {
                        Ok(
                            RepayOutcome {
                                loan: LoanAccount {
                                    user: loan.user,
                                    collateral_amount: loan.collateral_amount,
                                    remaining_debt: (loan.remaining_debt - repay) as u64,
                                    yield_earned: (loan.yield_earned + yield_amount) as u64,
                                    oracle_price_account: loan.oracle_price_account,
                                },
                                burned: repay as u64,
                            },
                        )
                    }
                }
            },
        }
    }
}

/// The periodic automated repayment. It runs without the owner's live
/// signature, consuming the spend-delegation granted at deposit time:
/// it measures the yield accrued above the baseline, values it at the
/// oracle price, burns the smaller of that value and the outstanding
/// debt from the owner's credit balance, and records the consumed
/// yield. With no yield it succeeds and changes nothing.
pub fn cron_repayment(
    protocol: &ProtocolState,
    loan: &LoanAccount,
    vault_balance: u64,
    user_credit_balance: u64,
    oracle: &SimplePriceOracle,
    now: i64,
) -> (r: Result<RepayOutcome, CredXError>)
    ensures
        r == spec_cron_repayment(
            *protocol,
            *loan,
            vault_balance,
            user_credit_balance,
            *oracle,
            now,
        ),
        // Debt never grows across a repayment, and what is burned is
        // exactly the debt decrease; the baseline and owner stay put.
        r matches Ok(o) ==> o.loan.remaining_debt <= loan.remaining_debt && o.burned
            == loan.remaining_debt - o.loan.remaining_debt && o.loan.collateral_amount
            == loan.collateral_amount && o.loan.user == loan.user,
        // The realized yield grows by exactly the yield consumed.
        r matches Ok(o) ==> o.loan.yield_earned - loan.yield_earned == vault_balance
            - loan.collateral_amount,
        // No yield above the baseline: an explicit no-op, successful
        // and with nothing burned, before any price is read.
        !protocol.is_locked && loan.remaining_debt > 0 && vault_balance == loan.collateral_amount
            ==> r == Ok::<RepayOutcome, CredXError>(RepayOutcome { loan: *loan, burned: 0 }),
        // A stale price is always rejected on the paths that read one.
        now - oracle.timestamp >= PRICE_MAX_AGE_SECONDS && vault_balance != loan.collateral_amount
            ==> r !is Ok,
        protocol.is_locked ==> r == Err::<RepayOutcome, CredXError>(CredXError::ProtocolLocked),
{
    if protocol.is_locked {
        return Err(CredXError::ProtocolLocked);
    }
    if loan.remaining_debt == 0 {
        return Err(CredXError::NoOutstandingDebt);
    }
    if vault_balance < loan.collateral_amount {
        return Err(CredXError::NegativeYield);
    }
    let yield_amount = vault_balance - loan.collateral_amount;
    if yield_amount == 0 {
        return Ok(RepayOutcome { loan: *loan, burned: 0 });
    }
    let price = match oracle.get_price(now) {
        Ok(p) => p,
        Err(e) => {
            return Err(e);
        },
    };
    assert(1 <= yield_amount * price <= u64::MAX * u64::MAX) by (nonlinear_arith)
        requires
            1 <= yield_amount <= u64::MAX,
            1 <= price <= u64::MAX,
    ;
    let yield_value: u128 = (yield_amount as u128) * (price as u128);
    if yield_value > i64::MAX as u128 {
        return Err(CredXError::MathOverflow);
    }
    if yield_value == 0 {
        return Err(CredXError::ZeroRepaymentValue);
    }
    let repayment_value = yield_value as u64;
    let actual_repayment = if repayment_value < loan.remaining_debt {
        repayment_value
    } else {
        loan.remaining_debt
    };
    if user_credit_balance < actual_repayment {
        return Err(CredXError::InsufficientCreditTokens);
    }
    let new_debt = match loan.remaining_debt.checked_sub(actual_repayment) {
        Some(d) => d,
        None => {
            return Err(CredXError::MathUnderflow);
        },
    };
    let new_yield_earned = match loan.yield_earned.checked_add(yield_amount) {
        Some(y) => y,
        None => {
            return Err(CredXError::MathOverflow);
        },
    };
    Ok(
        RepayOutcome {
            loan: LoanAccount {
                user: loan.user,
                collateral_amount: loan.collateral_amount,
                remaining_debt: new_debt,
                yield_earned: new_yield_earned,
                oracle_price_account: loan.oracle_price_account,
            },
            burned: actual_repayment,
        },
    )
}

} // verus!
