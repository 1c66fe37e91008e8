use vstd::prelude::*;

use crate::state::account::AccountId;

verus! {

/// The highest loan-to-value cap the protocol accepts, in basis points
/// (9000 = 90%).
pub const MAX_LTV_RATIO_BPS: u16 = 9000;

/// The denominator of a basis-point ratio (10000 = 100%).
pub const BPS_DENOMINATOR: u16 = 10000;

/// The protocol's singleton policy record, written once at
/// initialization. Only an admin lock/unlock action mutates it, and it
/// is never destroyed.
#[derive(Clone, Copy, Debug, PartialEq, Eq, Structural)]
pub struct ProtocolState {
    /// The admin identity that initialized the protocol.
    pub admin: AccountId,
    /// Loan-to-value cap in basis points; always in (0, MAX_LTV_RATIO_BPS].
    pub ltv_ratio_bps: u16,
    /// The identity of the protocol-issued credit asset.
    pub credit_mint: AccountId,
    /// While set, every lifecycle operation is refused.
    pub is_locked: bool,
}

impl ProtocolState {
    /// The configuration invariant: the loan-to-value cap is positive
    /// and at most MAX_LTV_RATIO_BPS.
    pub open spec fn wf(self) -> bool {
        0 < self.ltv_ratio_bps <= MAX_LTV_RATIO_BPS
    }
}

} // verus!
