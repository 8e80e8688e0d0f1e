use vstd::prelude::*;

use crate::constants::BASIS_POINTS_DIVISOR;
use crate::error::PerpsError;
use crate::wire::{le_signed, le_value};

verus! {

/// A price reported by the oracle: `price * 10^expo` with confidence interval
/// `conf * 10^expo`, published at unix time `publish_time`.
#[derive(Debug, Clone, Copy, PartialEq, Eq)]
pub struct OraclePrice {
    pub price: i64,
    pub conf: u64,
    pub expo: i32,
    pub publish_time: i64,
}

/// Bytes in a Pyth price account holding 32 publisher slots.
pub const PYTH_PRICE_ACCOUNT_SIZE: usize = 3312;

/// 8-byte words in a Pyth price account.
pub const PYTH_PRICE_ACCOUNT_WORDS: usize = 414;

/// Publisher slots in a Pyth price account.
pub const PYTH_PUBLISHER_SLOTS: usize = 32;

/// Where the publisher slots start, and how long each one is.
pub const PYTH_COMPONENTS_OFFSET: usize = 240;
pub const PYTH_COMPONENT_SIZE: usize = 96;

/// Whether Pyth accepts `data` as a price account: long enough, and its
/// header (little-endian `u32`s) holds the magic number, version 2 and the
/// price-account type.
pub open spec fn pyth_price_account_header_ok(data: Seq<u8>) -> bool {
    &&& data.len() >= PYTH_PRICE_ACCOUNT_SIZE
    &&& le_value(data.subrange(0, 4)) == 0xa1b2_c3d4
    &&& le_value(data.subrange(4, 8)) == 2
    &&& le_value(data.subrange(8, 12)) == 3
}

/// Whether the publisher slot `i` of a price account holds valid status
/// (at most 4) and corporate-action (0) bytes in both its aggregate and its
/// latest price.
pub open spec fn pyth_component_enums_valid(data: Seq<u8>, i: int) -> bool {
    let base = PYTH_COMPONENTS_OFFSET + PYTH_COMPONENT_SIZE * i;
    &&& data[base + 48] <= 4
    &&& data[base + 49] == 0
    &&& data[base + 80] <= 4
    &&& data[base + 81] == 0
}

/// Whether every enum field of a price account holds one of its enum's values:
/// the price type (byte 16, at most 1), the aggregate price's status (byte
/// 224, at most 4) and corporate action (byte 225, 0), and those of every
/// publisher slot.
pub open spec fn pyth_enum_fields_valid(data: Seq<u8>) -> bool {
    &&& data[16] <= 1
    &&& data[224] <= 4
    &&& data[225] == 0
    &&& forall|i: int| 0 <= i < PYTH_PUBLISHER_SLOTS ==> #[trigger] pyth_component_enums_valid(data, i)
}

/// The current price of a price account, as Pyth's price feed reports it:
/// while the aggregate's status (byte 224) is "trading" (1), the aggregate
/// price (bytes 208..216), confidence (216..224) and timestamp (96..104);
/// otherwise the previous price (184..192), confidence (192..200) and
/// timestamp (200..208). The exponent is bytes 20..24. All little-endian.
pub open spec fn pyth_current_price(data: Seq<u8>) -> OraclePrice {
    let expo = le_signed(data.subrange(20, 24)) as i32;
    if data[224] == 1 {
        OraclePrice {
            price: le_signed(data.subrange(208, 216)) as i64,
            conf: le_value(data.subrange(216, 224)) as u64,
            expo,
            publish_time: le_signed(data.subrange(96, 104)) as i64,
        }
    } else {
        OraclePrice {
            price: le_signed(data.subrange(184, 192)) as i64,
            conf: le_value(data.subrange(192, 200)) as u64,
            expo,
            publish_time: le_signed(data.subrange(200, 208)) as i64,
        }
    }
}

/// The current price of the Pyth price account `data`, or `None` when Pyth
/// does not accept the bytes as a price account.
pub open spec fn pyth_account_price(data: Seq<u8>) -> Option<OraclePrice> {
    if pyth_price_account_header_ok(data) {
        Some(pyth_current_price(data))
    } else {
        None
    }
}

/// Whether the enum fields of the price account `data` are valid.
pub fn pyth_enum_fields_ok(data: &[u8]) -> (r: bool)
    requires
        data@.len() >= PYTH_PRICE_ACCOUNT_SIZE,
    ensures
        r == pyth_enum_fields_valid(data@),
{
    if data[16] > 1 || data[224] > 4 || data[225] != 0 {
        return false;
    }
    let mut i: usize = 0;
    while i < PYTH_PUBLISHER_SLOTS
        invariant
            i <= PYTH_PUBLISHER_SLOTS,
            data@.len() >= PYTH_PRICE_ACCOUNT_SIZE,
            forall|k: int| 0 <= k < i ==> #[trigger] pyth_component_enums_valid(data@, k),
        decreases PYTH_PUBLISHER_SLOTS - i,
    {
        let base: usize = PYTH_COMPONENTS_OFFSET + PYTH_COMPONENT_SIZE * i;
        if data[base + 48] > 4 || data[base + 49] != 0 || data[base + 80] > 4 || data[base + 81] != 0 {
            assert(!pyth_component_enums_valid(data@, i as int));
            return false;
        }
        assert(pyth_component_enums_valid(data@, i as int));
        i = i + 1;
    }
    true
}

/// Reads a Pyth price account with `pyth_sdk_solana::state::load_price_account`
/// (which checks the size, magic number, version and account type), turns it
/// into a feed with `to_price_feed` and takes the feed's current price with
/// `PriceFeed::get_price_unchecked`; these are the calls Pyth's
/// `load_price_feed_from_account_info` makes. The feed's identifier (the
/// account's address) does not affect the price, so a zero address is passed.
/// Pyth views the bytes in place as its account structure and insists on
/// 8-byte alignment, so they are first copied into `buffer`, 8-byte words
/// exactly as long as the account. Claimed: Pyth refuses the bytes exactly
/// when the header's magic number, version or account type is wrong, and
/// otherwise reports the price `pyth_current_price` reads from them (the
/// aggregate price while its status is "trading", else the previous one).
/// The numbers are read little-endian: Pyth implements its byte view of the
/// account only for little-endian targets, so the call exists nowhere else.
/// Pyth's structure has enum fields, so bytes outside those enums' values
/// are not admitted.
#[verifier::external_body]
fn read_pyth_price(data: &[u8], buffer: Vec<u64>) -> (r: Option<OraclePrice>)
    requires
        data@.len() == PYTH_PRICE_ACCOUNT_SIZE,
        buffer@.len() == PYTH_PRICE_ACCOUNT_WORDS,
        pyth_enum_fields_valid(data@),
    ensures
        r == pyth_account_price(data@),
{
    let mut buffer = buffer;
    let aligned: &mut [u8] = bytemuck::cast_slice_mut(buffer.as_mut_slice());
    aligned.copy_from_slice(data);
    match pyth_sdk_solana::state::load_price_account::<32, ()>(aligned) {
        Ok(account) => {
            let p = account.to_price_feed(&Default::default()).get_price_unchecked();
            Some(OraclePrice { price: p.price, conf: p.conf, expo: p.expo, publish_time: p.publish_time })
        },
        Err(_) => None,
    }
}

/// The price account held in `data`, read by Pyth: `None` when Pyth does not
/// accept it, or when an enum field holds a byte outside its enum (Pyth could
/// not view such bytes as its structure).
pub fn read_oracle_account(data: &[u8]) -> (r: Option<OraclePrice>)
    ensures
        r == (if pyth_price_account_header_ok(data@) && pyth_enum_fields_valid(data@) {
            Some(pyth_current_price(data@))
        } else {
            None::<OraclePrice>
        }),
{
    if data.len() < PYTH_PRICE_ACCOUNT_SIZE {
        return None;
    }
    let account = vstd::slice::slice_subrange(data, 0, PYTH_PRICE_ACCOUNT_SIZE);
    proof {
        lemma_account_prefix(data@);
    }
    if !pyth_enum_fields_ok(account) {
        return None;
    }
    let buffer: Vec<u64> = vec![0u64; PYTH_PRICE_ACCOUNT_WORDS];
    read_pyth_price(account, buffer)
}

/// A price account's fields all lie in its first `PYTH_PRICE_ACCOUNT_SIZE`
/// bytes, so bytes after them change nothing.
proof fn lemma_account_prefix(data: Seq<u8>)
    requires
        data.len() >= PYTH_PRICE_ACCOUNT_SIZE,
    ensures
        ({
            let prefix = data.subrange(0, PYTH_PRICE_ACCOUNT_SIZE as int);
            &&& pyth_price_account_header_ok(prefix) == pyth_price_account_header_ok(data)
            &&& pyth_enum_fields_valid(prefix) == pyth_enum_fields_valid(data)
            &&& pyth_current_price(prefix) == pyth_current_price(data)
        }),
{
    let prefix = data.subrange(0, PYTH_PRICE_ACCOUNT_SIZE as int);
    assert(prefix.subrange(0, 4) =~= data.subrange(0, 4));
    assert(prefix.subrange(4, 8) =~= data.subrange(4, 8));
    assert(prefix.subrange(8, 12) =~= data.subrange(8, 12));
    assert(prefix.subrange(20, 24) =~= data.subrange(20, 24));
    assert(prefix.subrange(96, 104) =~= data.subrange(96, 104));
    assert(prefix.subrange(184, 192) =~= data.subrange(184, 192));
    assert(prefix.subrange(192, 200) =~= data.subrange(192, 200));
    assert(prefix.subrange(200, 208) =~= data.subrange(200, 208));
    assert(prefix.subrange(208, 216) =~= data.subrange(208, 216));
    assert(prefix.subrange(216, 224) =~= data.subrange(216, 224));
    assert forall|i: int| 0 <= i < PYTH_PUBLISHER_SLOTS implies
        #[trigger] pyth_component_enums_valid(prefix, i) == pyth_component_enums_valid(data, i) by {
        let base = PYTH_COMPONENTS_OFFSET + PYTH_COMPONENT_SIZE * i;
        assert(base + 81 < PYTH_PRICE_ACCOUNT_SIZE);
        assert(prefix[base + 48] == data[base + 48]);
        assert(prefix[base + 49] == data[base + 49]);
        assert(prefix[base + 80] == data[base + 80]);
        assert(prefix[base + 81] == data[base + 81]);
    }
    assert(pyth_price_account_header_ok(prefix) == pyth_price_account_header_ok(data));
    assert(pyth_current_price(prefix) == pyth_current_price(data));
    if pyth_enum_fields_valid(data) {
        assert(pyth_enum_fields_valid(prefix));
    }
    if pyth_enum_fields_valid(prefix) {
        assert forall|i: int| 0 <= i < PYTH_PUBLISHER_SLOTS implies #[trigger] pyth_component_enums_valid(data, i) by {
            assert(pyth_component_enums_valid(prefix, i));
        }
    }
}

pub open spec fn abs_int(x: int) -> int {
    if x < 0 {
        -x
    } else {
        x
    }
}

/// Whether the price was published within `max_staleness_seconds` of `now`
/// (either way); no price is within a negative limit.
pub open spec fn spec_price_fresh(price: OraclePrice, now: i64, max_staleness_seconds: i64) -> bool {
    max_staleness_seconds >= 0 && abs_int(price.publish_time - now) <= max_staleness_seconds
}

/// The checks an oracle price must pass before the protocol trades on it:
/// fresh within the staleness limit, positive, and with a confidence interval
/// of at most `max_confidence_bps` basis points of the price.
pub open spec fn spec_check_oracle_price(
    price: OraclePrice,
    now: i64,
    max_staleness_seconds: i64,
    max_confidence_bps: u64,
) -> Result<i64, PerpsError> {
    if !spec_price_fresh(price, now, max_staleness_seconds) {
        Err(PerpsError::StaleOracle)
    } else if price.price <= 0 {
        Err(PerpsError::InvalidPrice)
    } else if price.conf as int * BASIS_POINTS_DIVISOR as int > price.price as int * max_confidence_bps as int {
        Err(PerpsError::InvalidConfidence)
    } else {
        Ok(price.price)
    }
}

/// The price, if it was published within `age` seconds of `now` (either way).
pub fn price_no_older_than(price: OraclePrice, now: i64, age: u64) -> (r: Option<OraclePrice>)
    ensures
        r == (if abs_int(price.publish_time - now) <= age {
            Some(price)
        } else {
            None::<OraclePrice>
        }),
{
    let gap: i128 = (price.publish_time as i128) - (now as i128);
    let distance: i128 = if gap < 0 {
        -gap
    } else {
        gap
    };
    if distance > age as i128 {
        None
    } else {
        Some(price)
    }
}

/// Applies the protocol's oracle checks to a price read from the oracle.
pub fn check_oracle_price(
    price: OraclePrice,
    now: i64,
    max_staleness_seconds: i64,
    max_confidence_bps: u64,
) -> (r: Result<i64, PerpsError>)
    ensures
        r == spec_check_oracle_price(price, now, max_staleness_seconds, max_confidence_bps),
{
    if max_staleness_seconds < 0 {
        return Err(PerpsError::StaleOracle);
    }
    let current = match price_no_older_than(price, now, max_staleness_seconds as u64) {
        Some(p) => p,
        None => return Err(PerpsError::StaleOracle),
    };
    if current.price <= 0 {
        return Err(PerpsError::InvalidPrice);
    }
    let price_abs: u128 = current.price as u128;
    let conf: u128 = current.conf as u128;
    proof {
        assert(conf * 10_000 <= u64::MAX * 10_000) by (nonlinear_arith)
            requires
                conf <= u64::MAX,
        ;
        assert(price_abs * max_confidence_bps <= u64::MAX * u64::MAX) by (nonlinear_arith)
            requires
                price_abs <= u64::MAX,
                max_confidence_bps <= u64::MAX,
        ;
    }
    if conf * (BASIS_POINTS_DIVISOR as u128) > price_abs * (max_confidence_bps as u128) {
        return Err(PerpsError::InvalidConfidence);
    }
    Ok(current.price)
}

} // verus!
