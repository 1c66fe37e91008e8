use vstd::prelude::*;

use crate::error::CredXError;

verus! {

/// A price older than this many seconds is rejected as stale.
pub const PRICE_MAX_AGE_SECONDS: i64 = 300;

/// A single-scale oracle record: an authority-updatable price with the
/// unix time it was published. The richer multi-exponent oracle feed is
/// handled separately.
#[derive(Clone, Copy, Debug, PartialEq, Eq, Structural)]
pub struct SimplePriceOracle {
    /// The published price, already at the engine's scale.
    pub price: u64,
    /// Unix timestamp of the moment the price was published.
    pub timestamp: i64,
}

impl SimplePriceOracle {
    /// Whether this record's price passes the positivity check.
    pub open spec fn spec_price_positive(self) -> bool {
        self.price > 0
    }

    /// Whether this record is fresh at time `now`: strictly less than
    /// PRICE_MAX_AGE_SECONDS old. A record published in the future
    /// counts as fresh.
    pub open spec fn spec_fresh(self, now: i64) -> bool {
        now - self.timestamp < PRICE_MAX_AGE_SECONDS
    }

    /// What the validated price read returns: the price when it is
    /// positive and fresh, and the exact error otherwise.
    pub open spec fn spec_get_price(self, now: i64) -> Result<u64, CredXError> {
        if !self.spec_price_positive() {
            Err(CredXError::InvalidPrice)
        } else if !self.spec_fresh(now) {
            Err(CredXError::StalePrice)
        } else {
            Ok(self.price)
        }
    }

    /// The shared validated price read: every price-consuming operation
    /// accepts a price only if it is positive and strictly fresher than
    /// PRICE_MAX_AGE_SECONDS at time `now`.
    pub fn get_price(&self, now: i64) -> (r: Result<u64, CredXError>)
        ensures
            r == self.spec_get_price(now),
            r matches Ok(p) ==> p == self.price && p > 0,
            now - self.timestamp >= PRICE_MAX_AGE_SECONDS ==> r !is Ok,
    {
        if self.price == 0 {
            return Err(CredXError::InvalidPrice);
        }
        let age: i128 = (now as i128) - (self.timestamp as i128);
        if age >= PRICE_MAX_AGE_SECONDS as i128 {
            return Err(CredXError::StalePrice);
        }
        Ok(self.price)
    }
}

/// Creates an oracle record carrying `price` as published at time `now`.
pub fn create_simple_oracle(price: u64, now: i64) -> (r: SimplePriceOracle)
    ensures
        r == (SimplePriceOracle { price, timestamp: now }),
{
    SimplePriceOracle { price, timestamp: now }
}

/// Replaces an oracle record's price with `price` as published at time
/// `now`.
pub fn update_simple_oracle(oracle: &SimplePriceOracle, price: u64, now: i64) -> (r:
    SimplePriceOracle)
    ensures
        r == (SimplePriceOracle { price, timestamp: now }),
{
    SimplePriceOracle { price, timestamp: now }
}

} // verus!
