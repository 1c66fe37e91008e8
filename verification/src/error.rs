use vstd::prelude::*;

verus! {

/// The error taxonomy of the lending engine. Every operation either
/// succeeds in full or returns one of these and leaves all state
/// unchanged: the engine never commits a partial transition.
#[derive(Clone, Copy, Debug, PartialEq, Eq, Structural)]
pub enum CredXError {
    /// The loan-to-value cap is outside (0, 9000] basis points.
    InvalidLtvRatio,
    /// A deposit amount of zero.
    InvalidAmount,
    /// The chosen collateral asset is not on the whitelist.
    UnsupportedCollateralMint,
    /// The caller identity is the nil identity.
    InvalidUser,
    /// The loan was initialized without an oracle reference.
    InvalidOracleAccount,
    /// The caller's collateral balance does not cover the deposit.
    InsufficientBalance,
    /// The vault's bound asset differs from the offered collateral asset.
    MintMismatch,
    /// The caller is not the loan's owner.
    UnauthorizedUser,
    /// The protocol's lock flag is set.
    ProtocolLocked,
    /// A checked addition or multiplication overflowed.
    MathOverflow,
    /// A borrow was attempted with no collateral baseline recorded.
    NoCollateralDeposited,
    /// The oracle bytes do not hold a well-formed price account.
    FailedToLoadPriceAccount,
    /// The oracle feed is not currently trading.
    InvalidPriceStatus,
    /// The oracle price is not positive.
    InvalidPrice,
    /// The oracle price is too old to be trusted.
    StalePrice,
    /// The borrowable value computed to zero.
    ZeroBorrowAmount,
    /// No additional value can be borrowed at the current price: the
    /// cap is at or below the outstanding debt.
    MaxBorrowLimitReached,
    /// The live vault balance fell below the recorded baseline, so the
    /// yield would be negative.
    NegativeYield,
    /// A repayment was attempted with no debt outstanding.
    NoOutstandingDebt,
    /// The yield converted to zero repayment value.
    ZeroRepaymentValue,
    /// The credit balance does not cover the amount to burn.
    InsufficientCreditTokens,
    /// A checked subtraction underflowed.
    MathUnderflow,
    /// A withdrawal was attempted with no debt outstanding.
    NoActiveLoan,
    /// The collateral's value no longer covers the outstanding debt.
    InsufficientCollateralValue,
}

} // verus!
