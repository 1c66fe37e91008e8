use vstd::prelude::*;

use crate::error::CredXError;
use crate::oracle::{SimplePriceOracle, PRICE_MAX_AGE_SECONDS};
use crate::state::loan::LoanAccount;
use crate::state::protocol::{ProtocolState, BPS_DENOMINATOR, MAX_LTV_RATIO_BPS};

verus! {

/// What a successful borrow hands back: the updated loan and the amount
/// of credit asset the host must mint to the caller.
#[derive(Clone, Copy, Debug, PartialEq, Eq, Structural)]
pub struct BorrowOutcome {
    /// The loan with its debt raised to the full borrowable value.
    pub loan: LoanAccount,
    /// Credit-asset units to mint to the caller.
    pub minted: u64,
}

/// The borrowable value of a collateral baseline at a price:
/// floor(collateral_amount * price * ltv_ratio_bps / 10000), the
/// division truncating toward zero.
pub open spec fn spec_borrow_value(collateral_amount: u64, price: u64, ltv_ratio_bps: u16) -> int {
    (collateral_amount * price * ltv_ratio_bps) / (BPS_DENOMINATOR as int)
}

/// The validations a borrow performs before any value is computed:
/// protocol unlocked, collateral deposited, a well-formed
/// loan-to-value cap, and a positive fresh price.
pub open spec fn spec_borrow_prechecks(
    protocol: ProtocolState,
    loan: LoanAccount,
    oracle: SimplePriceOracle,
    now: i64,
) -> bool {
    &&& !protocol.is_locked
    &&& loan.collateral_amount > 0
    &&& protocol.wf()
    &&& oracle.spec_get_price(now) is Ok
}

/// What a borrow returns: the loan with its debt raised to the full
/// borrowable value `spec_borrow_value` and the difference minted, or
/// the first failing check's error.
pub open spec fn spec_lend_credit_token(
    protocol: ProtocolState,
    loan: LoanAccount,
    oracle: SimplePriceOracle,
    now: i64,
) -> Result<BorrowOutcome, CredXError> {
    if protocol.is_locked {
        Err(CredXError::ProtocolLocked)
    } else if loan.collateral_amount == 0 {
        Err(CredXError::NoCollateralDeposited)
    } else if !protocol.wf() {
        Err(CredXError::InvalidLtvRatio)
    } else {
        match oracle.spec_get_price(now) {
            Err(e) => Err(e),
            Ok(price) => {
                let borrow_value = spec_borrow_value(
                    loan.collateral_amount,
                    price,
                    protocol.ltv_ratio_bps,
                );
                if loan.collateral_amount * price * protocol.ltv_ratio_bps > u128::MAX {
                    Err(CredXError::MathOverflow)
                } else if borrow_value < loan.remaining_debt {
                    Err(CredXError::MaxBorrowLimitReached)
                } else if borrow_value - loan.remaining_debt > u64::MAX {
                    Err(CredXError::MathOverflow)
                } else if borrow_value == 0 {
                    Err(CredXError::ZeroBorrowAmount)
                } else if borrow_value == loan.remaining_debt {
                    Err(CredXError::MaxBorrowLimitReached)
                } else if borrow_value > u64::MAX {
                    Err(CredXError::MathOverflow)
                } else {
                    Ok(
                        BorrowOutcome {
                            loan: LoanAccount {
                                user: loan.user,
                                collateral_amount: loan.collateral_amount,
                                remaining_debt: borrow_value as u64,
                                yield_earned: loan.yield_earned,
                                oracle_price_account: loan.oracle_price_account,
                            },
                            minted: (borrow_value - loan.remaining_debt) as u64,
                        },
                    )
                }
            },
        }
    }
}

/// Borrows up to the loan-to-value cap: validates, reads the oracle
/// price, computes the borrowable value in wide arithmetic, and raises
/// the debt to exactly that value; the host mints the difference to the
/// caller. Over-collateralization is enforced at the instant of
/// borrowing only; there is no re-check of old debt against a later
/// price.
pub fn lend_credit_token(
    protocol: &ProtocolState,
    loan: &LoanAccount,
    oracle: &SimplePriceOracle,
    now: i64,
) -> (r: Result<BorrowOutcome, CredXError>)
    ensures
        r == spec_lend_credit_token(*protocol, *loan, *oracle, now),
        // The debt right after a successful borrow is exactly the
        // floor of collateral value times the cap.
        r matches Ok(o) ==> o.loan.remaining_debt == spec_borrow_value(
            loan.collateral_amount,
            oracle.price,
            protocol.ltv_ratio_bps,
        ),
        // Solvency: the post-borrow debt never exceeds that cap.
        r matches Ok(o) ==> o.loan.remaining_debt <= spec_borrow_value(
            loan.collateral_amount,
            oracle.price,
            protocol.ltv_ratio_bps,
        ),
        // Debt never decreases across a borrow, and what is minted is
        // exactly the debt increase; nothing else on the loan moves.
        r matches Ok(o) ==> o.loan.remaining_debt >= loan.remaining_debt && o.minted
            == o.loan.remaining_debt - loan.remaining_debt && o.minted > 0
            && o.loan.collateral_amount == loan.collateral_amount && o.loan.yield_earned
            == loan.yield_earned && o.loan.user == loan.user,
        // Nothing additional is borrowable: with debt outstanding, a
        // cap at or below it is the exact boundary error.
        spec_borrow_prechecks(*protocol, *loan, *oracle, now) && loan.collateral_amount
            * oracle.price * protocol.ltv_ratio_bps <= u128::MAX && spec_borrow_value(
            loan.collateral_amount,
            oracle.price,
            protocol.ltv_ratio_bps,
        ) <= loan.remaining_debt && loan.remaining_debt > 0 ==> r == Err::<
            BorrowOutcome,
            CredXError,
        >(CredXError::MaxBorrowLimitReached),
        // A stale price is always rejected.
        now - oracle.timestamp >= PRICE_MAX_AGE_SECONDS ==> r !is Ok,
        // A locked protocol refuses to lend.
        protocol.is_locked ==> r == Err::<BorrowOutcome, CredXError>(CredXError::ProtocolLocked),
{
    if protocol.is_locked {
        return Err(CredXError::ProtocolLocked);
    }
    if loan.collateral_amount == 0 {
        return Err(CredXError::NoCollateralDeposited);
    }
    if !(protocol.ltv_ratio_bps > 0 && protocol.ltv_ratio_bps <= MAX_LTV_RATIO_BPS) {
        return Err(CredXError::InvalidLtvRatio);
    }
    let price = match oracle.get_price(now) {
        Ok(p) => p,
        Err(e) => {
            return Err(e);
        },
    };
    assert(loan.collateral_amount * price <= u64::MAX * u64::MAX) by (nonlinear_arith)
        requires
            loan.collateral_amount <= u64::MAX,
            price <= u64::MAX,
    ;
    let collateral_value: u128 = (loan.collateral_amount as u128) * (price as u128);
    let scaled = match collateral_value.checked_mul(protocol.ltv_ratio_bps as u128) {
        Some(v) => v,
        None => {
            return Err(CredXError::MathOverflow);
        },
    };
    let borrow_value: u128 = scaled / (BPS_DENOMINATOR as u128);
    let debt = loan.remaining_debt;
    if (debt as u128) > borrow_value {
        return Err(CredXError::MaxBorrowLimitReached);
    }
    let additional: u128 = borrow_value - (debt as u128);
    if additional > u64::MAX as u128 {
        return Err(CredXError::MathOverflow);
    }
    if borrow_value == 0 {
        return Err(CredXError::ZeroBorrowAmount);
    }
    if additional == 0 {
        return Err(CredXError::MaxBorrowLimitReached);
    }
    let minted = additional as u64;
    let new_debt = match debt.checked_add(minted) {
        Some(d) => d,
        None => {
            return Err(CredXError::MathOverflow);
        },
    };
    Ok(
        BorrowOutcome {
            loan: LoanAccount {
                user: loan.user,
                collateral_amount: loan.collateral_amount,
                remaining_debt: new_debt,
                yield_earned: loan.yield_earned,
                oracle_price_account: loan.oracle_price_account,
            },
            minted,
        },
    )
}

} // verus!
