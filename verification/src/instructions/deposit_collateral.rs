use vstd::prelude::*;

use crate::error::CredXError;
use crate::instructions::initialize_loan::spec_supported_collateral;
use crate::instructions::initialize_loan::supported_collateral;
use crate::state::account::AccountId;
use crate::state::collateral::CollateralVault;
use crate::state::loan::LoanAccount;
use crate::state::protocol::ProtocolState;

verus! {

/// What a deposit returns: the loan with its baseline raised by exactly
/// `amount`, or the first failing validation's error. The host moves
/// `amount` of collateral from the caller into the vault and grants the
/// protocol's custodial authority a standing spend-delegation for the
/// later automated repayments.
pub open spec fn spec_deposit_collateral(
    protocol: ProtocolState,
    collateral_mint: AccountId,
    vault: CollateralVault,
    loan: LoanAccount,
    user: AccountId,
    user_collateral_balance: u64,
    amount: u64,
) -> Result<LoanAccount, CredXError> {
    if protocol.is_locked {
        Err(CredXError::ProtocolLocked)
    } else if !spec_supported_collateral(collateral_mint) {
        Err(CredXError::UnsupportedCollateralMint)
    } else if user_collateral_balance < amount {
        Err(CredXError::InsufficientBalance)
    } else if vault.mint != collateral_mint {
        Err(CredXError::MintMismatch)
    } else if loan.user != user {
        Err(CredXError::UnauthorizedUser)
    } else if amount == 0 {
        Err(CredXError::InvalidAmount)
    } else if loan.collateral_amount + amount > u64::MAX {
        Err(CredXError::MathOverflow)
    } else {
        Ok(LoanAccount { collateral_amount: (loan.collateral_amount + amount) as u64, ..loan })
    }
}

/// Records a collateral deposit of `amount` against the loan.
///
/// Validates that the protocol is unlocked, the asset is whitelisted
/// and matches the vault's binding, the caller owns the loan and can
/// spend `amount`, and that `amount` is positive; then raises the
/// recorded baseline by exactly `amount` with checked addition. On any
/// failure the loan is returned unchanged by the caller keeping its old
/// record: nothing here is partially applied.
pub fn deposit_collateral(
    protocol: &ProtocolState,
    collateral_mint: &AccountId,
    vault: &CollateralVault,
    loan: &LoanAccount,
    user: AccountId,
    user_collateral_balance: u64,
    amount: u64,
) -> (r: Result<LoanAccount, CredXError>)
    ensures
        r == spec_deposit_collateral(
            *protocol,
            *collateral_mint,
            *vault,
            *loan,
            user,
            user_collateral_balance,
            amount,
        ),
        // Round-trip: a successful deposit raises the baseline by
        // exactly `amount`, with no rounding loss, and touches nothing
        // else.
        r matches Ok(new_loan) ==> new_loan.collateral_amount == loan.collateral_amount + amount
            && new_loan.remaining_debt == loan.remaining_debt && new_loan.yield_earned
            == loan.yield_earned && new_loan.user == loan.user,
        protocol.is_locked ==> r == Err::<LoanAccount, CredXError>(CredXError::ProtocolLocked),
{
    if protocol.is_locked {
        return Err(CredXError::ProtocolLocked);
    }
    if !supported_collateral(collateral_mint) {
        return Err(CredXError::UnsupportedCollateralMint);
    }
    if user_collateral_balance < amount {
        return Err(CredXError::InsufficientBalance);
    }
    if vault.mint != *collateral_mint {
        return Err(CredXError::MintMismatch);
    }
    if loan.user != user {
        return Err(CredXError::UnauthorizedUser);
    }
    if amount == 0 {
        return Err(CredXError::InvalidAmount);
    }
    let new_collateral_amount = match loan.collateral_amount.checked_add(amount) {
        Some(total) => total,
        None => {
            return Err(CredXError::MathOverflow);
        },
    };
    Ok(
        LoanAccount {
            user: loan.user,
            collateral_amount: new_collateral_amount,
            remaining_debt: loan.remaining_debt,
            yield_earned: loan.yield_earned,
            oracle_price_account: loan.oracle_price_account,
        },
    )
}

} // verus!
