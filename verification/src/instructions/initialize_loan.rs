use vstd::prelude::*;

use crate::error::CredXError;
use crate::state::account::AccountId;
use crate::state::collateral::CollateralVault;
use crate::state::loan::LoanAccount;

verus! {

/// First 16 bytes of the whitelisted mSOL collateral mint identity.
pub const MSOL_MINT_HI: u128 = 0x0b62ba074f722c9d4114f2d8f70a00c6;

/// Last 16 bytes of the whitelisted mSOL collateral mint identity.
pub const MSOL_MINT_LO: u128 = 0x6002337b9bf90c873657a6d201db4c80;

/// First 16 bytes of the whitelisted JitoSOL collateral mint identity.
pub const JITO_SOL_MINT_HI: u128 = 0xfcd141e9832caf10ad917495ca0f271b;

/// Last 16 bytes of the whitelisted JitoSOL collateral mint identity.
pub const JITO_SOL_MINT_LO: u128 = 0x5b293cd47027ea737007ed40eb39a0bd;

/// The whitelisted mSOL collateral mint identity.
pub open spec fn spec_msol_mint() -> AccountId {
    AccountId { hi: MSOL_MINT_HI, lo: MSOL_MINT_LO }
}

/// The whitelisted JitoSOL collateral mint identity.
pub open spec fn spec_jito_sol_mint() -> AccountId {
    AccountId { hi: JITO_SOL_MINT_HI, lo: JITO_SOL_MINT_LO }
}

/// Membership in the fixed collateral whitelist.
pub open spec fn spec_supported_collateral(mint: AccountId) -> bool {
    mint == spec_msol_mint() || mint == spec_jito_sol_mint()
}

/// Whether `mint` is one of the whitelisted collateral assets.
pub fn supported_collateral(mint: &AccountId) -> (r: bool)
    ensures
        r == spec_supported_collateral(*mint),
{
    let msol = AccountId { hi: MSOL_MINT_HI, lo: MSOL_MINT_LO };
    let jito_sol = AccountId { hi: JITO_SOL_MINT_HI, lo: JITO_SOL_MINT_LO };
    *mint == msol || *mint == jito_sol
}

/// What loan initialization returns: a vault bound to the chosen
/// collateral asset and a loan ledger with every counter at zero, or
/// the first failing validation's error.
pub open spec fn spec_initialize_loan(
    user: AccountId,
    collateral_mint: AccountId,
    oracle_price_account: AccountId,
) -> Result<(CollateralVault, LoanAccount), CredXError> {
    if user.spec_is_nil() {
        Err(CredXError::InvalidUser)
    } else if !spec_supported_collateral(collateral_mint) {
        Err(CredXError::UnsupportedCollateralMint)
    } else if oracle_price_account.spec_is_nil() {
        Err(CredXError::InvalidOracleAccount)
    } else {
        Ok(
            (
                CollateralVault { mint: collateral_mint },
                LoanAccount {
                    user,
                    collateral_amount: 0,
                    remaining_debt: 0,
                    yield_earned: 0,
                    oracle_price_account,
                },
            ),
        )
    }
}

/// Per-user, once: validates the caller, the chosen collateral asset
/// and the oracle reference, then creates the vault bound to that asset
/// and the loan ledger with all counters zero, recording the oracle
/// reference so later operations cannot be pointed at a substituted
/// feed. No asset moves here.
pub fn initialize_loan(
    user: AccountId,
    collateral_mint: AccountId,
    oracle_price_account: AccountId,
) -> (r: Result<(CollateralVault, LoanAccount), CredXError>)
    ensures
        r == spec_initialize_loan(user, collateral_mint, oracle_price_account),
        r matches Ok(pair) ==> pair.1.collateral_amount == 0 && pair.1.remaining_debt == 0
            && pair.1.yield_earned == 0,
{
    if user.is_nil() {
        return Err(CredXError::InvalidUser);
    }
    if !supported_collateral(&collateral_mint) {
        return Err(CredXError::UnsupportedCollateralMint);
    }
    if oracle_price_account.is_nil() {
        return Err(CredXError::InvalidOracleAccount);
    }
    Ok(
        (
            CollateralVault { mint: collateral_mint },
            LoanAccount {
                user,
                collateral_amount: 0,
                remaining_debt: 0,
                yield_earned: 0,
                oracle_price_account,
            },
        ),
    )
}

} // verus!
