use perps::error::PerpsError;
use perps::math::fees::fee;
use perps::math::liquidation::{maintenance_requirement, margin_ratio_bps};
use perps::math::load_price_with_checks;
use perps::math::oracle::{check_oracle_price, price_no_older_than, OraclePrice};
use perps::math::pnl::{calculate_pnl, equity_after_pnl};
use perps::state::Side;

use pyth_sdk_solana::state::{AccountType, PriceStatus, PriceType, SolanaPriceAccount, MAGIC, VERSION_2};

#[test]
fn calculates_fee_in_basis_points() {
    assert_eq!(fee(10_000, 25).unwrap(), 25);
}

#[test]
fn calculates_long_and_short_pnl() {
    assert_eq!(calculate_pnl(Side::Long, 50, 100, 120).unwrap(), 10);
    assert_eq!(calculate_pnl(Side::Short, 50, 120, 100).unwrap(), 8);
}

#[test]
fn equity_is_saturating_on_loss() {
    assert_eq!(equity_after_pnl(100, -150).unwrap(), 0);
    assert_eq!(equity_after_pnl(100, 25).unwrap(), 125);
}

#[test]
fn liquidation_math_scales_linearly() {
    assert_eq!(maintenance_requirement(10_000, 500).unwrap(), 500);
    assert_eq!(margin_ratio_bps(500, 10_000).unwrap(), 500);
}

#[test]
fn fee_rounds_down() {
    assert_eq!(fee(999, 10).unwrap(), 0);
    assert_eq!(fee(1_999, 50).unwrap(), 9);
    assert_eq!(fee(0, 65_535).unwrap(), 0);
}

#[test]
fn fee_beyond_u64_overflows() {
    // (2^64 - 1) * 20000 / 10000 = 2^65 - 2 does not fit.
    assert_eq!(fee(u64::MAX, 20_000), Err(PerpsError::MathOverflow));
    assert_eq!(fee(u64::MAX, 10_000), Ok(u64::MAX));
    // (2^63) * 20000 / 10000 = 2^64: one past the largest u64.
    assert_eq!(fee(1u64 << 63, 20_000), Err(PerpsError::MathOverflow));
    assert_eq!(fee((1u64 << 63) - 1, 20_000), Ok(u64::MAX - 1));
}

#[test]
fn liquidation_measures_beyond_u64_overflow() {
    assert_eq!(margin_ratio_bps(1u64 << 62, 1), Err(PerpsError::MathOverflow));
    assert_eq!(margin_ratio_bps(u64::MAX, 10_000), Ok(u64::MAX));
    assert_eq!(maintenance_requirement(u64::MAX, 20_000), Err(PerpsError::MathOverflow));
    assert_eq!(maintenance_requirement(u64::MAX, 10_000), Ok(u64::MAX));
}

#[test]
fn margin_ratio_of_empty_position_is_zero() {
    assert_eq!(margin_ratio_bps(12_345, 0).unwrap(), 0);
    assert_eq!(margin_ratio_bps(1, 3).unwrap(), 3_333);
    assert_eq!(maintenance_requirement(3, 5_000).unwrap(), 1);
}

#[test]
fn pnl_rounds_toward_zero() {
    // A loss of 0.03 rounds to zero, not to -1.
    assert_eq!(calculate_pnl(Side::Long, 3, 100, 99).unwrap(), 0);
    assert_eq!(calculate_pnl(Side::Long, 150, 100, 99).unwrap(), -1);
    assert_eq!(calculate_pnl(Side::Short, 150, 100, 99).unwrap(), 1);
    assert_eq!(calculate_pnl(Side::Short, 50, 100, 120).unwrap(), -10);
}

#[test]
fn pnl_refuses_non_positive_prices() {
    assert_eq!(calculate_pnl(Side::Long, 1, 0, 10), Err(PerpsError::InvalidPrice));
    assert_eq!(calculate_pnl(Side::Short, 1, 10, -5), Err(PerpsError::InvalidPrice));
}

#[test]
fn pnl_beyond_i64_overflows() {
    // delta = i64::MAX - 1, size = 2, entry = 1: exact value 2^64 - 4.
    assert_eq!(calculate_pnl(Side::Long, 2, 1, i64::MAX), Err(PerpsError::MathOverflow));
    assert_eq!(calculate_pnl(Side::Long, u64::MAX, 1, i64::MAX), Err(PerpsError::MathOverflow));
    // A loss of exactly 2^63 is i64::MIN; a gain of 2^63 is one too many.
    assert_eq!(calculate_pnl(Side::Short, 1u64 << 63, 1, 2), Ok(i64::MIN));
    assert_eq!(calculate_pnl(Side::Long, 1u64 << 63, 1, 2), Err(PerpsError::MathOverflow));
    assert_eq!(calculate_pnl(Side::Long, (1u64 << 63) - 1, 1, 2), Ok(i64::MAX));
}

#[test]
fn equity_overflow_and_extreme_loss() {
    assert_eq!(equity_after_pnl(u64::MAX, 1), Err(PerpsError::MathOverflow));
    assert_eq!(equity_after_pnl(u64::MAX, i64::MIN).unwrap(), u64::MAX - (1u64 << 63));
    assert_eq!(equity_after_pnl(5, i64::MIN).unwrap(), 0);
    assert_eq!(equity_after_pnl(100, -100).unwrap(), 0);
}

fn price(price: i64, conf: u64, publish_time: i64) -> OraclePrice {
    OraclePrice { price, conf, expo: -8, publish_time }
}

#[test]
fn oracle_price_freshness() {
    let p = price(100, 1, 1_000);
    assert_eq!(price_no_older_than(p, 1_030, 30), Some(p));
    assert_eq!(price_no_older_than(p, 1_031, 30), None);
    assert_eq!(price_no_older_than(p, 970, 30), Some(p));
    assert_eq!(price_no_older_than(p, 969, 30), None);
}

#[test]
fn oracle_price_checks() {
    assert_eq!(check_oracle_price(price(100, 1, 1_000), 1_010, 60, 100), Ok(100));
    assert_eq!(check_oracle_price(price(100, 1, 1_000), 1_061, 60, 100), Err(PerpsError::StaleOracle));
    assert_eq!(check_oracle_price(price(0, 0, 1_000), 1_000, 60, 100), Err(PerpsError::InvalidPrice));
    assert_eq!(check_oracle_price(price(-5, 0, 1_000), 1_000, 60, 100), Err(PerpsError::InvalidPrice));
    // conf * 10000 = 20000 > 100 * 100 = 10000.
    assert_eq!(check_oracle_price(price(100, 2, 1_000), 1_000, 60, 100), Err(PerpsError::InvalidConfidence));
    // conf * 10000 = 10000 <= 100 * 100.
    assert_eq!(check_oracle_price(price(100, 1, 1_000), 1_000, 60, 100), Ok(100));
    // No price is fresh within a negative staleness limit.
    assert_eq!(check_oracle_price(price(100, 1, 0), 1_000_000, -1, 100), Err(PerpsError::StaleOracle));
    assert_eq!(check_oracle_price(price(100, 1, 1_000), 1_000, -1, 100), Err(PerpsError::StaleOracle));
    assert_eq!(check_oracle_price(price(100, 1, 1_000), 1_000, 0, 100), Ok(100));
    // A gap between publish time and now beyond any i64 is stale.
    assert_eq!(check_oracle_price(price(100, 1, i64::MIN), 1, i64::MAX, 100), Err(PerpsError::StaleOracle));
    assert_eq!(check_oracle_price(price(100, 1, i64::MIN), 0, i64::MAX, 100), Err(PerpsError::StaleOracle));
    assert_eq!(check_oracle_price(price(100, 1, i64::MIN + 1), 0, i64::MAX, 100), Ok(100));
}

#[test]
fn oracle_freshness_at_extreme_times() {
    let p = price(100, 1, i64::MIN);
    assert_eq!(price_no_older_than(p, i64::MAX, u64::MAX), Some(p));
    assert_eq!(price_no_older_than(p, i64::MAX, u64::MAX - 1), None);
}

fn pyth_account_bytes(status: PriceStatus, agg_price: i64, agg_conf: u64, prev_price: i64) -> Vec<u8> {
    let mut account = SolanaPriceAccount::default();
    account.magic = MAGIC;
    account.ver = VERSION_2;
    account.atype = AccountType::Price as u32;
    account.expo = -8;
    account.timestamp = 1_000;
    account.prev_timestamp = 900;
    account.prev_price = prev_price;
    account.prev_conf = 0;
    account.agg.price = agg_price;
    account.agg.conf = agg_conf;
    account.agg.status = status;
    bytemuck::bytes_of(&account).to_vec()
}

#[test]
fn loads_price_from_pyth_account() {
    let bytes = pyth_account_bytes(PriceStatus::Trading, 25_000, 10, 7);
    assert_eq!(load_price_with_checks(&bytes, 1_005, 60, 100), Ok(25_000));
    // Too old for a ten-second limit.
    assert_eq!(load_price_with_checks(&bytes, 1_011, 10, 100), Err(PerpsError::StaleOracle));
    // Confidence 10 on 25000 is 4 bps: refused at a 3 bps limit.
    assert_eq!(load_price_with_checks(&bytes, 1_000, 60, 3), Err(PerpsError::InvalidConfidence));
}

#[test]
fn halted_pyth_feed_reports_previous_price() {
    let bytes = pyth_account_bytes(PriceStatus::Halted, 25_000, 10, 24_000);
    assert_eq!(load_price_with_checks(&bytes, 905, 60, 100), Ok(24_000));
}

#[test]
fn refuses_bytes_that_are_no_pyth_account() {
    let mut bytes = pyth_account_bytes(PriceStatus::Trading, 25_000, 10, 7);
    assert_eq!(load_price_with_checks(&bytes[..100], 1_000, 60, 100), Err(PerpsError::InvalidOracle));
    bytes[0] ^= 0xff;
    assert_eq!(load_price_with_checks(&bytes, 1_000, 60, 100), Err(PerpsError::InvalidOracle));
    assert_eq!(load_price_with_checks(&[], 1_000, 60, 100), Err(PerpsError::InvalidOracle));
}

#[test]
fn pyth_price_account_size_matches() {
    assert_eq!(std::mem::size_of::<SolanaPriceAccount>(), perps::math::oracle::PYTH_PRICE_ACCOUNT_SIZE);
    assert_eq!(perps::math::oracle::PYTH_PRICE_ACCOUNT_WORDS * 8, perps::math::oracle::PYTH_PRICE_ACCOUNT_SIZE);
}

#[test]
fn pyth_price_account_field_offsets() {
    let mut account = SolanaPriceAccount::default();
    account.ptype = PriceType::Price;
    account.expo = -7;
    account.timestamp = 0x0102_0304_0506_0708;
    account.prev_price = -2;
    account.prev_conf = 0x1111_2222_3333_4444;
    account.prev_timestamp = 0x0a0b_0c0d_0e0f_1011;
    account.agg.price = -3;
    account.agg.conf = 0x5555_6666_7777_8888;
    account.agg.status = PriceStatus::Auction;
    account.comp[3].agg.status = PriceStatus::Halted;
    account.comp[31].latest.status = PriceStatus::Ignored;
    let bytes = bytemuck::bytes_of(&account);
    assert_eq!(bytes[16], 1);
    assert_eq!(bytes[20..24], (-7i32).to_le_bytes());
    assert_eq!(bytes[96..104], 0x0102_0304_0506_0708i64.to_le_bytes());
    assert_eq!(bytes[184..192], (-2i64).to_le_bytes());
    assert_eq!(bytes[192..200], 0x1111_2222_3333_4444u64.to_le_bytes());
    assert_eq!(bytes[200..208], 0x0a0b_0c0d_0e0f_1011i64.to_le_bytes());
    assert_eq!(bytes[208..216], (-3i64).to_le_bytes());
    assert_eq!(bytes[216..224], 0x5555_6666_7777_8888u64.to_le_bytes());
    assert_eq!(bytes[224], 3);
    assert_eq!(bytes[240 + 96 * 3 + 48], 2);
    assert_eq!(bytes[240 + 96 * 31 + 80], 4);
}

#[test]
fn refuses_pyth_accounts_with_invalid_enum_bytes() {
    let bytes = pyth_account_bytes(PriceStatus::Trading, 25_000, 10, 7);
    let cases: [(usize, u8); 7] = [
        (224, 5),
        (225, 1),
        (16, 2),
        (240 + 48, 5),
        (240 + 49, 1),
        (240 + 96 * 31 + 80, 9),
        (240 + 96 * 31 + 81, 1),
    ];
    for (at, value) in cases {
        let mut bad = bytes.clone();
        bad[at] = value;
        assert_eq!(load_price_with_checks(&bad, 1_000, 60, 100), Err(PerpsError::InvalidOracle), "byte {}", at);
    }
    // Bytes outside the account (after its first 3312) are not looked at.
    let mut longer = bytes.clone();
    longer.push(0xff);
    assert_eq!(load_price_with_checks(&longer, 1_000, 60, 100), Ok(25_000));
}

#[test]
fn unknown_status_reports_previous_price() {
    let bytes = pyth_account_bytes(PriceStatus::Unknown, 25_000, 10, 24_500);
    assert_eq!(load_price_with_checks(&bytes, 905, 60, 100), Ok(24_500));
    assert_eq!(load_price_with_checks(&bytes, 1_000, 60, 100), Err(PerpsError::StaleOracle));
}

#[test]
fn pyth_header_decides_acceptance() {
    let bytes = pyth_account_bytes(PriceStatus::Trading, 25_000, 10, 7);
    assert_eq!(bytes.len(), 3312);
    // One byte short is refused; trailing bytes are ignored.
    assert_eq!(load_price_with_checks(&bytes[..3311], 1_000, 60, 100), Err(PerpsError::InvalidOracle));
    let mut longer = bytes.clone();
    longer.extend_from_slice(&[0xee; 17]);
    assert_eq!(load_price_with_checks(&longer, 1_000, 60, 100), Ok(25_000));
    // Wrong version (byte 4) and wrong account type (byte 8).
    let mut version = bytes.clone();
    version[4] = 3;
    assert_eq!(load_price_with_checks(&version, 1_000, 60, 100), Err(PerpsError::InvalidOracle));
    let mut kind = bytes.clone();
    kind[8] = 2;
    assert_eq!(load_price_with_checks(&kind, 1_000, 60, 100), Err(PerpsError::InvalidOracle));
}
