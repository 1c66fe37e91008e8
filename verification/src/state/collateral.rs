use vstd::prelude::*;

use crate::state::account::AccountId;

verus! {

/// A per-user custodial vault record, bound at loan initialization to
/// exactly one whitelisted collateral asset. Immutable after creation;
/// closed only by a full withdrawal.
#[derive(Clone, Copy, Debug, PartialEq, Eq, Structural)]
pub struct CollateralVault {
    /// The identity of the collateral asset this vault holds.
    pub mint: AccountId,
}

} // verus!
