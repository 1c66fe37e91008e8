use cred_x::create_simple_oracle;
use cred_x::get_price;
use cred_x::normalize_price;
use cred_x::update_simple_oracle;
use cred_x::CredXError;
use cred_x::PriceData;
use cred_x::SimplePriceOracle;

use pyth_sdk_solana::state::AccountType;
use pyth_sdk_solana::state::PriceStatus;
use pyth_sdk_solana::state::SolanaPriceAccount;
use pyth_sdk_solana::state::MAGIC;
use pyth_sdk_solana::state::VERSION_2;

fn price_account(price: i64, expo: i32, status: PriceStatus, pub_slot: u64) -> SolanaPriceAccount {
    let mut account = SolanaPriceAccount::default();
    account.magic = MAGIC;
    account.ver = VERSION_2;
    account.atype = AccountType::Price as u32;
    account.expo = expo;
    account.agg.price = price;
    account.agg.status = status;
    account.agg.pub_slot = pub_slot;
    account
}

#[test]
fn simple_oracle_round_trip() {
    let oracle = create_simple_oracle(42, 1000);
    assert_eq!(oracle, SimplePriceOracle { price: 42, timestamp: 1000 });
    let oracle = update_simple_oracle(&oracle, 55, 1200);
    assert_eq!(oracle, SimplePriceOracle { price: 55, timestamp: 1200 });
}

#[test]
fn simple_oracle_returns_fresh_positive_price() {
    let oracle = create_simple_oracle(42, 1000);
    assert_eq!(oracle.get_price(1100), Ok(42));
    // exactly at the staleness horizon the price is rejected
    assert_eq!(oracle.get_price(1300), Err(CredXError::StalePrice));
    assert_eq!(oracle.get_price(1299), Ok(42));
}

#[test]
fn simple_oracle_rejects_zero_price() {
    let oracle = create_simple_oracle(0, 1000);
    assert_eq!(oracle.get_price(1100), Err(CredXError::InvalidPrice));
}

#[test]
fn simple_oracle_accepts_future_timestamp() {
    let oracle = create_simple_oracle(42, 5000);
    assert_eq!(oracle.get_price(1000), Ok(42));
}

#[test]
fn feed_price_negative_expo_divides() {
    let account = price_account(12345, -2, PriceStatus::Trading, 100);
    // 12345 / 10^2 = 123
    assert_eq!(get_price(bytemuck::bytes_of(&account), 200), Ok(123));
}

#[test]
fn feed_price_positive_expo_multiplies() {
    let account = price_account(5, 3, PriceStatus::Trading, 100);
    assert_eq!(get_price(bytemuck::bytes_of(&account), 200), Ok(5000));
}

#[test]
fn feed_price_zero_expo_is_identity() {
    let account = price_account(987, 0, PriceStatus::Trading, 100);
    assert_eq!(get_price(bytemuck::bytes_of(&account), 200), Ok(987));
}

#[test]
fn feed_price_reads_a_misaligned_slice() {
    // the account bytes arrive at an odd offset of a larger buffer;
    // the read must parse them all the same
    let account = price_account(12345, -2, PriceStatus::Trading, 100);
    let mut buffer: Vec<u8> = vec![0u8];
    buffer.extend_from_slice(bytemuck::bytes_of(&account));
    assert_eq!(get_price(&buffer[1..], 200), Ok(123));
}

#[test]
fn feed_price_rejects_unparseable_bytes() {
    let short = [0u8; 16];
    assert_eq!(get_price(&short, 200), Err(CredXError::FailedToLoadPriceAccount));
    let mut account = price_account(5, 0, PriceStatus::Trading, 100);
    account.magic = 0;
    assert_eq!(
        get_price(bytemuck::bytes_of(&account), 200),
        Err(CredXError::FailedToLoadPriceAccount)
    );
}

#[test]
fn feed_price_rejects_non_trading_status() {
    let account = price_account(5, 0, PriceStatus::Halted, 100);
    assert_eq!(get_price(bytemuck::bytes_of(&account), 200), Err(CredXError::InvalidPriceStatus));
    let account = price_account(5, 0, PriceStatus::Unknown, 100);
    assert_eq!(get_price(bytemuck::bytes_of(&account), 200), Err(CredXError::InvalidPriceStatus));
}

#[test]
fn feed_price_rejects_non_positive_price() {
    let account = price_account(0, 0, PriceStatus::Trading, 100);
    assert_eq!(get_price(bytemuck::bytes_of(&account), 200), Err(CredXError::InvalidPrice));
    let account = price_account(-7, 0, PriceStatus::Trading, 100);
    assert_eq!(get_price(bytemuck::bytes_of(&account), 200), Err(CredXError::InvalidPrice));
}

#[test]
fn feed_price_rejects_stale_publication() {
    let account = price_account(5, 0, PriceStatus::Trading, 100);
    assert_eq!(get_price(bytemuck::bytes_of(&account), 400), Err(CredXError::StalePrice));
    assert_eq!(get_price(bytemuck::bytes_of(&account), 399), Ok(5));
}

#[test]
fn feed_price_rejects_overflowing_scale() {
    // 10^19 does not fit an i64
    let account = price_account(5, 19, PriceStatus::Trading, 100);
    assert_eq!(get_price(bytemuck::bytes_of(&account), 200), Err(CredXError::MathOverflow));
    let account = price_account(5, -19, PriceStatus::Trading, 100);
    assert_eq!(get_price(bytemuck::bytes_of(&account), 200), Err(CredXError::MathOverflow));
}

#[test]
fn feed_price_rejects_overflowing_product() {
    // 10^18 fits, but 20 * 10^18 does not
    let account = price_account(20, 18, PriceStatus::Trading, 100);
    assert_eq!(get_price(bytemuck::bytes_of(&account), 200), Err(CredXError::MathOverflow));
}

#[test]
fn normalize_price_scales_by_the_exponent() {
    let d = PriceData { price: 250_000, expo: -4, trading: true, pub_slot: 100 };
    assert_eq!(normalize_price(&d, 200), Ok(25));
    let d = PriceData { price: 7, expo: 2, trading: true, pub_slot: 100 };
    assert_eq!(normalize_price(&d, 200), Ok(700));
}

#[test]
fn normalize_price_checks_come_in_order() {
    // a halted stale record fails on the status first
    let d = PriceData { price: 5, expo: 0, trading: false, pub_slot: 100 };
    assert_eq!(normalize_price(&d, 4000), Err(CredXError::InvalidPriceStatus));
    // a trading record with a bad price fails before the staleness check
    let d = PriceData { price: 0, expo: 0, trading: true, pub_slot: 100 };
    assert_eq!(normalize_price(&d, 4000), Err(CredXError::InvalidPrice));
    let d = PriceData { price: 5, expo: 0, trading: true, pub_slot: 100 };
    assert_eq!(normalize_price(&d, 4000), Err(CredXError::StalePrice));
}

#[test]
fn normalize_price_rejects_extreme_exponents() {
    let d = PriceData { price: 5, expo: i32::MIN, trading: true, pub_slot: 100 };
    assert_eq!(normalize_price(&d, 200), Err(CredXError::MathOverflow));
    let d = PriceData { price: 5, expo: i32::MAX, trading: true, pub_slot: 100 };
    assert_eq!(normalize_price(&d, 200), Err(CredXError::MathOverflow));
}

#[test]
fn feed_price_division_truncates_to_zero() {
    // a positive raw price can normalize to zero; the engine's own
    // positivity check on the consuming path rejects it there
    let account = price_account(99, -3, PriceStatus::Trading, 100);
    assert_eq!(get_price(bytemuck::bytes_of(&account), 200), Ok(0));
}
