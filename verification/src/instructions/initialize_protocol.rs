use vstd::prelude::*;

use crate::error::CredXError;
use crate::state::account::AccountId;
use crate::state::protocol::{ProtocolState, MAX_LTV_RATIO_BPS};

verus! {

/// What protocol initialization returns: the fresh unlocked
/// configuration when the loan-to-value cap is in (0, MAX_LTV_RATIO_BPS]
/// basis points, and InvalidLtvRatio otherwise.
pub open spec fn spec_initialize_protocol(
    admin: AccountId,
    credit_mint: AccountId,
    ltv_ratio_bps: u16,
) -> Result<ProtocolState, CredXError> {
    if 0 < ltv_ratio_bps <= MAX_LTV_RATIO_BPS {
        Ok(ProtocolState { admin, ltv_ratio_bps, credit_mint, is_locked: false })
    } else {
        Err(CredXError::InvalidLtvRatio)
    }
}

/// Admin-only, once per deployment: validates the loan-to-value cap and
/// writes the protocol configuration with the lock flag clear. The host
/// creates the credit asset under the protocol's custodial authority
/// alongside; no policy decision is involved in that.
pub fn initialize_protocol(
    admin: AccountId,
    credit_mint: AccountId,
    ltv_ratio_bps: u16,
) -> (r: Result<ProtocolState, CredXError>)
    ensures
        r == spec_initialize_protocol(admin, credit_mint, ltv_ratio_bps),
        r matches Ok(p) ==> p.wf() && !p.is_locked,
{
    if !(ltv_ratio_bps > 0 && ltv_ratio_bps <= MAX_LTV_RATIO_BPS) {
        return Err(CredXError::InvalidLtvRatio);
    }
    Ok(ProtocolState { admin, ltv_ratio_bps, credit_mint, is_locked: false })
}

} // verus!
