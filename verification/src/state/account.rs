use vstd::prelude::*;

verus! {

/// A 32-byte account identity, held as two 128-bit halves so that
/// equality is plain field equality. The host derives real ledger
/// addresses; the engine only compares identities and checks for the
/// all-zero (nil) identity that no real account carries.
#[derive(Clone, Copy, Debug, PartialEq, Eq, Hash, Structural)]
pub struct AccountId {
    /// The first 16 bytes of the identity, big-endian.
    pub hi: u128,
    /// The last 16 bytes of the identity, big-endian.
    pub lo: u128,
}

impl AccountId {
    /// The all-zero identity, used as "no account".
    pub open spec fn spec_nil() -> AccountId {
        AccountId { hi: 0, lo: 0 }
    }

    /// Whether this identity is the all-zero "no account" value.
    pub open spec fn spec_is_nil(self) -> bool {
        self == AccountId::spec_nil()
    }

    pub fn is_nil(&self) -> (r: bool)
        ensures
            r == self.spec_is_nil(),
    {
        self.hi == 0 && self.lo == 0
    }
}

impl Default for AccountId {
    /// The default identity is the nil identity, as for ledger addresses.
    fn default() -> (r: AccountId)
        ensures
            r == AccountId::spec_nil(),
    {
        AccountId { hi: 0, lo: 0 }
    }
}

} // verus!
