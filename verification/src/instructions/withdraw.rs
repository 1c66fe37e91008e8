use vstd::prelude::*;

use crate::error::CredXError;
use crate::oracle::{SimplePriceOracle, PRICE_MAX_AGE_SECONDS};
use crate::state::account::AccountId;
use crate::state::loan::LoanAccount;
use crate::state::protocol::ProtocolState;

verus! {

/// What a successful full-settlement withdrawal hands back: the closed
/// loan and the two ledger moves the host must make.
#[derive(Clone, Copy, Debug, PartialEq, Eq, Structural)]
pub struct WithdrawOutcome {
    /// The loan with both counters zeroed and the final yield folded in.
    pub loan: LoanAccount,
    /// Credit-asset units to burn from the caller: the full debt.
    pub burned: u64,
    /// Collateral units to transfer back to the caller: the full live
    /// vault balance; the host then closes the vault's sub-account.
    pub collateral_returned: u64,
}

/// What a withdrawal returns: with the debt fully covered by the
/// collateral's value and by the caller's credit balance, the debt is
/// burned, the whole vault balance is returned, both loan counters are
/// zeroed and the final unrealized yield is folded into the realized
/// total; otherwise the first failing check's error. A vault balance
/// below the baseline folds zero yield rather than failing.
pub open spec fn spec_withdraw_collateral(
    protocol: ProtocolState,
    loan: LoanAccount,
    user: AccountId,
    vault_balance: u64,
    user_credit_balance: u64,
    oracle: SimplePriceOracle,
    now: i64,
) -> Result<WithdrawOutcome, CredXError> {
    if protocol.is_locked {
        Err(CredXError::ProtocolLocked)
    } else if user != loan.user {
        Err(CredXError::UnauthorizedUser)
    } else if loan.remaining_debt == 0 {
        Err(CredXError::NoActiveLoan)
    } else {
        match oracle.spec_get_price(now) {
            Err(e) => Err(e),
            Ok(price) => {
                let collateral_value = vault_balance * price;
                let clamped_value = if collateral_value > u64::MAX {
                    u64::MAX as int
                } else {
                    collateral_value
                };
                if clamped_value < loan.remaining_debt {
                    Err(CredXError::InsufficientCollateralValue)
                } else if user_credit_balance < loan.remaining_debt {
                    Err(CredXError::InsufficientCreditTokens)
                } else {
                    let final_yield = if vault_balance >= loan.collateral_amount {
                        vault_balance - loan.collateral_amount
                    } else {
                        0
                    };
                    if loan.yield_earned + final_yield > u64::MAX {
                        Err(CredXError::MathOverflow)
                    } else {
                        Ok(
                            WithdrawOutcome {
                                loan: LoanAccount {
                                    user: loan.user,
                                    collateral_amount: 0,
                                    remaining_debt: 0,
                                    yield_earned: (loan.yield_earned + final_yield) as u64,
                                    oracle_price_account: loan.oracle_price_account,
                                },
                                burned: loan.remaining_debt,
                                collateral_returned: vault_balance,
                            },
                        )
                    }
                }
            },
        }
    }
}

/// The full-settlement exit: there is no partial withdrawal while debt
/// remains. Validates the caller and that debt is outstanding, reads
/// the price, and requires the live vault balance's value to cover the
/// debt (the solvency gate) and the caller's credit balance to cover
/// the burn. The host then burns the debt, transfers the whole vault
/// balance back, and closes the vault's sub-account; the loan record
/// keeps the owner with both counters zeroed and all yield realized.
pub fn withdraw_collateral(
    protocol: &ProtocolState,
    loan: &LoanAccount,
    user: AccountId,
    vault_balance: u64,
    user_credit_balance: u64,
    oracle: &SimplePriceOracle,
    now: i64,
) -> (r: Result<WithdrawOutcome, CredXError>)
    ensures
        r == spec_withdraw_collateral(
            *protocol,
            *loan,
            user,
            vault_balance,
            user_credit_balance,
            *oracle,
            now,
        ),
        // Debt never grows across a withdrawal: it is settled in full,
        // and exactly the debt is burned.
        r matches Ok(o) ==> o.loan.remaining_debt == 0 && o.loan.remaining_debt
            <= loan.remaining_debt && o.burned == loan.remaining_debt,
        // The whole live balance goes back and the baseline is cleared;
        // the record keeps its owner.
        r matches Ok(o) ==> o.collateral_returned == vault_balance && o.loan.collateral_amount == 0
            && o.loan.user == loan.user,
        // The final unrealized yield, clamped at zero, is folded into
        // the realized total.
        r matches Ok(o) ==> o.loan.yield_earned - loan.yield_earned == (
        if vault_balance >= loan.collateral_amount {
            vault_balance - loan.collateral_amount
        } else {
            0
        }),
        // A stale price is always rejected.
        now - oracle.timestamp >= PRICE_MAX_AGE_SECONDS ==> r !is Ok,
        protocol.is_locked ==> r == Err::<WithdrawOutcome, CredXError>(CredXError::ProtocolLocked),
{
    if protocol.is_locked {
        return Err(CredXError::ProtocolLocked);
    }
    if user != loan.user {
        return Err(CredXError::UnauthorizedUser);
    }
    let remaining_debt = loan.remaining_debt;
    if remaining_debt == 0 {
        return Err(CredXError::NoActiveLoan);
    }
    let price = match oracle.get_price(now) {
        Ok(p) => p,
        Err(e) => {
            return Err(e);
        },
    };
    assert(vault_balance * price <= u64::MAX * u64::MAX) by (nonlinear_arith)
        requires
            vault_balance <= u64::MAX,
            price <= u64::MAX,
    ;
    let collateral_value: u128 = (vault_balance as u128) * (price as u128);
    let collateral_value_clamped: u64 = if collateral_value > u64::MAX as u128 {
        u64::MAX
    } else {
        collateral_value as u64
    };
    if collateral_value_clamped < remaining_debt {
        return Err(CredXError::InsufficientCollateralValue);
    }
    if user_credit_balance < remaining_debt {
        return Err(CredXError::InsufficientCreditTokens);
    }
    let final_yield = if vault_balance >= loan.collateral_amount {
        vault_balance - loan.collateral_amount
    } else {
        0
    };
    let new_yield_earned = match loan.yield_earned.checked_add(final_yield) {
        Some(y) => y,
        None => {
            return Err(CredXError::MathOverflow);
        },
    };
    Ok(
        WithdrawOutcome {
            loan: LoanAccount {
                user: loan.user,
                collateral_amount: 0,
                remaining_debt: 0,
                yield_earned: new_yield_earned,
                oracle_price_account: loan.oracle_price_account,
            },
            burned: remaining_debt,
            collateral_returned: vault_balance,
        },
    )
}

} // verus!
