use vstd::prelude::*;

use crate::error::CredXError;
use crate::oracle::PRICE_MAX_AGE_SECONDS;

verus! {

/// What the engine reads from a multi-exponent oracle price account:
/// the raw price, its decimal exponent, whether the feed is currently
/// trading, and the slot it was published at.
#[derive(Clone, Copy, Debug, PartialEq, Eq, Structural)]
pub struct PriceData {
    /// The raw aggregate price, to be scaled by 10^expo.
    pub price: i64,
    /// The decimal exponent of the raw price.
    pub expo: i32,
    /// Whether the feed's aggregate status is "trading".
    pub trading: bool,
    /// The slot the aggregate was published at.
    pub pub_slot: u64,
}

/// What parsing a price account's bytes yields: a function of the bytes
/// alone, named here and fixed by `load_price_data`.
pub uninterp spec fn pyth_price_data(data: Seq<u8>) -> Option<PriceData>;

/// Relies on pyth_sdk_solana::state::load_price_account: deserializes a
/// price account (32-publisher Solana layout) from raw little-endian
/// bytes, accepting it only with the expected magic number, version and
/// account type. The result depends on the bytes alone. The bytes are
/// copied into 8-aligned storage first: the deserializer reads them in
/// place and refuses a misaligned slice.
#[verifier::external_body]
fn load_price_data(data: &[u8]) -> (r: Option<PriceData>)
    ensures
        r == pyth_price_data(data@),
{
    let mut aligned: Vec<u64> = vec![0u64; data.len().div_ceil(8)];
    bytemuck::cast_slice_mut::<u64, u8>(&mut aligned)[..data.len()].copy_from_slice(data);
    let bytes = &bytemuck::cast_slice::<u64, u8>(&aligned)[..data.len()];
    match pyth_sdk_solana::state::load_price_account::<32, ()>(bytes) {
        Ok(a) => Some(PriceData {
            price: a.agg.price,
            expo: a.expo,
            trading: matches!(a.agg.status, pyth_sdk_solana::state::PriceStatus::Trading),
            pub_slot: a.agg.pub_slot,
        }),
        Err(_) => None,
    }
}

/// 10 to the power `k`.
pub open spec fn spec_pow10(k: nat) -> int
    decreases k,
{
    if k == 0 {
        1
    } else {
        10 * spec_pow10((k - 1) as nat)
    }
}

/// A power of ten is at least one.
pub proof fn lemma_pow10_pos(k: nat)
    ensures
        spec_pow10(k) >= 1,
    decreases k,
{
    if k > 0 {
        lemma_pow10_pos((k - 1) as nat);
    }
}

/// Powers of ten do not decrease with the exponent.
pub proof fn lemma_pow10_mono(a: nat, b: nat)
    requires
        a <= b,
    ensures
        spec_pow10(a) <= spec_pow10(b),
    decreases b,
{
    if a < b {
        lemma_pow10_mono(a, (b - 1) as nat);
        lemma_pow10_pos((b - 1) as nat);
    }
}

/// Computes 10^k when it fits an i64, and reports when it does not.
fn pow10_i64(k: u32) -> (r: Option<i64>)
    ensures
        r matches Some(v) ==> v == spec_pow10(k as nat) && spec_pow10(k as nat) <= i64::MAX,
        r is None ==> spec_pow10(k as nat) > i64::MAX,
{
    let mut acc: i64 = 1;
    let mut i: u32 = 0;
    while i < k
        invariant
            i <= k,
            acc == spec_pow10(i as nat),
            1 <= acc <= i64::MAX,
        decreases k - i,
    {
        if acc > i64::MAX / 10 {
            proof {
                lemma_pow10_mono((i + 1) as nat, k as nat);
            }
            return None;
        }
        acc = acc * 10;
        i = i + 1;
    }
    Some(acc)
}

/// What validating and scaling a parsed price record returns: the raw
/// price scaled to the engine's unit when the feed is trading, positive
/// and fresh, and the exact error otherwise. Scaling divides by
/// 10^(-expo) for a negative exponent and multiplies by 10^expo for a
/// non-negative one, each failing as an overflow when the power or the
/// product leaves i64. The freshness comparison takes the publication
/// slot as a second count, as the richer feed carries no unix
/// timestamp of its own.
pub open spec fn spec_normalize_price(d: PriceData, now: i64) -> Result<i64, CredXError> {
    if !d.trading {
        Err(CredXError::InvalidPriceStatus)
    } else if d.price <= 0 {
        Err(CredXError::InvalidPrice)
    } else if now - (d.pub_slot as i64) >= PRICE_MAX_AGE_SECONDS {
        Err(CredXError::StalePrice)
    } else if d.expo < 0 {
        let k = (-(d.expo as int)) as nat;
        if spec_pow10(k) > i64::MAX {
            Err(CredXError::MathOverflow)
        } else {
            Ok((d.price as int / spec_pow10(k)) as i64)
        }
    } else {
        let k = d.expo as nat;
        if spec_pow10(k) > i64::MAX || d.price * spec_pow10(k) > i64::MAX {
            Err(CredXError::MathOverflow)
        } else {
            Ok((d.price * spec_pow10(k)) as i64)
        }
    }
}

/// Validates a parsed price record and scales its raw price by the
/// decimal exponent with checked arithmetic: the positivity and
/// freshness checks of the simple oracle, plus the trading-status check
/// and the scale normalization the richer feed needs.
pub fn normalize_price(d: &PriceData, now: i64) -> (r: Result<i64, CredXError>)
    ensures
        r == spec_normalize_price(*d, now),
        // The normalized price is never negative, and a non-positive
        // raw price is never accepted.
        r matches Ok(p) ==> p >= 0 && d.price > 0,
        // A record published at or before the staleness horizon is
        // always rejected.
        now - (d.pub_slot as i64) >= PRICE_MAX_AGE_SECONDS ==> r !is Ok,
{
    if !d.trading {
        return Err(CredXError::InvalidPriceStatus);
    }
    if d.price <= 0 {
        return Err(CredXError::InvalidPrice);
    }
    let price_time: i64 = d.pub_slot as i64;
    let age: i128 = (now as i128) - (price_time as i128);
    if age >= PRICE_MAX_AGE_SECONDS as i128 {
        return Err(CredXError::StalePrice);
    }
    if d.expo < 0 {
        let k: u32 = (-(d.expo as i64)) as u32;
        proof {
            assert(k as nat == (-(d.expo as int)) as nat);
        }
        match pow10_i64(k) {
            None => Err(CredXError::MathOverflow),
            Some(divisor) => {
                proof {
                    lemma_pow10_pos(k as nat);
                    vstd::arithmetic::div_mod::lemma_div_pos_is_pos(
                        d.price as int,
                        divisor as int,
                    );
                    vstd::arithmetic::div_mod::lemma_div_nonincreasing(
                        d.price as int,
                        divisor as int,
                    );
                }
                Ok(d.price / divisor)
            },
        }
    } else {
        let k: u32 = d.expo as u32;
        match pow10_i64(k) {
            None => Err(CredXError::MathOverflow),
            Some(multiplier) => {
                proof {
                    lemma_pow10_pos(k as nat);
                    assert(d.price * multiplier >= 1) by (nonlinear_arith)
                        requires
                            d.price >= 1,
                            multiplier >= 1,
                    ;
                }
                match d.price.checked_mul(multiplier) {
                    None => Err(CredXError::MathOverflow),
                    Some(normalized) => Ok(normalized),
                }
            },
        }
    }
}

/// What the multi-exponent price read returns over the named parse of
/// the account bytes: `spec_normalize_price` of the parsed record, or
/// the parse failure's error.
pub open spec fn spec_get_price(data: Seq<u8>, now: i64) -> Result<i64, CredXError> {
    match pyth_price_data(data) {
        None => Err(CredXError::FailedToLoadPriceAccount),
        Some(d) => spec_normalize_price(d, now),
    }
}

/// Reads a multi-exponent oracle price account: parses the bytes, then
/// validates and scales the parsed record with `normalize_price`.
pub fn get_price(data: &[u8], now: i64) -> (r: Result<i64, CredXError>)
    ensures
        r == spec_get_price(data@, now),
        // Whatever the feed holds, the accepted price is never
        // negative.
        r matches Ok(p) ==> p >= 0,
        // A price account published at or before the staleness horizon
        // is always rejected.
        (pyth_price_data(data@) matches Some(d) && now - (d.pub_slot as i64)
            >= PRICE_MAX_AGE_SECONDS) ==> r !is Ok,
{
    match load_price_data(data) {
        None => Err(CredXError::FailedToLoadPriceAccount),
        Some(d) => normalize_price(&d, now),
    }
}

} // verus!
