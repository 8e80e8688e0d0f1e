pub mod fees;
pub mod liquidation;
pub mod oracle;
pub mod pnl;

use vstd::prelude::*;

use crate::error::PerpsError;
use crate::math::oracle::{
    check_oracle_price, pyth_current_price, pyth_enum_fields_valid, pyth_price_account_header_ok, read_oracle_account,
    spec_check_oracle_price,
};

verus! {

/// What loading and checking the oracle price held in `price_account_data`
/// gives at unix time `now`: `InvalidOracle` when the bytes are no Pyth price
/// account (or one whose enum fields hold bytes outside their enums),
/// otherwise the outcome of the protocol's checks on its current price.
pub open spec fn spec_load_price_with_checks(
    price_account_data: Seq<u8>,
    now: i64,
    max_staleness_seconds: i64,
    max_confidence_bps: u64,
) -> Result<i64, PerpsError> {
    if pyth_price_account_header_ok(price_account_data) && pyth_enum_fields_valid(price_account_data) {
        spec_check_oracle_price(pyth_current_price(price_account_data), now, max_staleness_seconds, max_confidence_bps)
    } else {
        Err(PerpsError::InvalidOracle)
    }
}

/// The oracle price held in the price account `price_account_data`, once it
/// has passed the protocol's freshness, sign and confidence checks at unix
/// time `now`.
pub fn load_price_with_checks(
    price_account_data: &[u8],
    now: i64,
    max_staleness_seconds: i64,
    max_confidence_bps: u64,
) -> (r: Result<i64, PerpsError>)
    ensures
        r == spec_load_price_with_checks(price_account_data@, now, max_staleness_seconds, max_confidence_bps),
{
    match read_oracle_account(price_account_data) {
        None => Err(PerpsError::InvalidOracle),
        Some(p) => check_oracle_price(p, now, max_staleness_seconds, max_confidence_bps),
    }
}

/// The smaller of two limits.
pub open spec fn min_i64(a: i64, b: i64) -> i64 {
    if a <= b {
        a
    } else {
        b
    }
}

/// The smaller of two limits.
pub open spec fn min_u64(a: u64, b: u64) -> u64 {
    if a <= b {
        a
    } else {
        b
    }
}

/// The smaller of two limits.
pub fn min_of_i64(a: i64, b: i64) -> (r: i64)
    ensures
        r == min_i64(a, b),
{
    if a <= b {
        a
    } else {
        b
    }
}

/// The smaller of two limits.
pub fn min_of_u64(a: u64, b: u64) -> (r: u64)
    ensures
        r == min_u64(a, b),
{
    if a <= b {
        a
    } else {
        b
    }
}

} // verus!
