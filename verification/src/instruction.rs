use vstd::prelude::*;

use crate::state::{Address, Side};
use crate::wire::{
    le_bytes, le_value, lemma_le_bytes_len, lemma_le_bytes_of_value, lemma_le_value_bound,
    lemma_le_value_of_bytes, lemma_pow256_values, read_le,
};

verus! {

/// The protocol's instructions, as carried in a transaction's instruction data.
#[derive(Debug, Clone, Copy, PartialEq, Eq)]
pub enum PerpsInstruction {
    Initialize,
    CreateMarket {
        market_id: u16,
        oracle: Address,
        max_leverage: u8,
        maintenance_margin_bps: u16,
        open_fee_bps: u16,
        close_fee_bps: u16,
        liquidation_fee_bps: u16,
        max_staleness_seconds: i64,
        max_confidence_bps: u64,
    },
    AddLiquidity { market_id: u16, amount: u64 },
    RemoveLiquidity { market_id: u16, shares: u64 },
    OpenPosition { market_id: u16, side: Side, collateral: u64, position_size: u64, leverage: u8 },
    ClosePosition { market_id: u16 },
    /// Liquidates an undercollateralised position in the market. The wire
    /// format carries it, but this library has no state transition for it:
    /// the program refuses it as invalid instruction data.
    Liquidate { market_id: u16 },
    PauseMarket { market_id: u16, paused: bool },
    UpdateMarket {
        market_id: u16,
        oracle: Option<Address>,
        max_leverage: Option<u8>,
        maintenance_margin_bps: Option<u16>,
        open_fee_bps: Option<u16>,
        close_fee_bps: Option<u16>,
        liquidation_fee_bps: Option<u16>,
        max_staleness_seconds: Option<i64>,
        max_confidence_bps: Option<u64>,
    },
}

// ---------------------------------------------------------------------------
// The wire format (Borsh): a one-byte variant index, then the fields in
// order; integers little-endian, addresses as their 32 bytes, `bool` and
// `Side` as one byte 0 or 1, `Option` as a byte 0 (none) or 1 then the value.
// ---------------------------------------------------------------------------

pub open spec fn enc_u16(v: u16) -> Seq<u8> {
    le_bytes(v as nat, 2)
}

pub open spec fn enc_u64(v: u64) -> Seq<u8> {
    le_bytes(v as nat, 8)
}

/// Two's complement, eight bytes.
pub open spec fn enc_i64(v: i64) -> Seq<u8> {
    le_bytes(if v >= 0 { v as nat } else { (v + 0x1_0000_0000_0000_0000int) as nat }, 8)
}

pub open spec fn enc_bool(b: bool) -> Seq<u8> {
    seq![if b { 1u8 } else { 0u8 }]
}

pub open spec fn enc_side(side: Side) -> Seq<u8> {
    match side {
        Side::Long => seq![0u8],
        Side::Short => seq![1u8],
    }
}

pub open spec fn enc_opt(o: Option<Seq<u8>>) -> Seq<u8> {
    match o {
        None => seq![0u8],
        Some(p) => seq![1u8] + p,
    }
}

pub open spec fn opt_address_bytes(o: Option<Address>) -> Option<Seq<u8>> {
    match o {
        None => None,
        Some(a) => Some(a@),
    }
}

pub open spec fn opt_u8_bytes(o: Option<u8>) -> Option<Seq<u8>> {
    match o {
        None => None,
        Some(v) => Some(seq![v]),
    }
}

pub open spec fn opt_u16_bytes(o: Option<u16>) -> Option<Seq<u8>> {
    match o {
        None => None,
        Some(v) => Some(enc_u16(v)),
    }
}

pub open spec fn opt_i64_bytes(o: Option<i64>) -> Option<Seq<u8>> {
    match o {
        None => None,
        Some(v) => Some(enc_i64(v)),
    }
}

pub open spec fn opt_u64_bytes(o: Option<u64>) -> Option<Seq<u8>> {
    match o {
        None => None,
        Some(v) => Some(enc_u64(v)),
    }
}

/// The bytes that carry `ix`.
pub open spec fn encode(ix: PerpsInstruction) -> Seq<u8> {
    match ix {
        PerpsInstruction::Initialize => seq![0u8],
        PerpsInstruction::CreateMarket {
            market_id,
            oracle,
            max_leverage,
            maintenance_margin_bps,
            open_fee_bps,
            close_fee_bps,
            liquidation_fee_bps,
            max_staleness_seconds,
            max_confidence_bps,
        } => seq![1u8] + enc_u16(market_id) + oracle@ + seq![max_leverage] + enc_u16(maintenance_margin_bps)
            + enc_u16(open_fee_bps) + enc_u16(close_fee_bps) + enc_u16(liquidation_fee_bps) + enc_i64(
            max_staleness_seconds,
        ) + enc_u64(max_confidence_bps),
        PerpsInstruction::AddLiquidity { market_id, amount } => seq![2u8] + enc_u16(market_id) + enc_u64(amount),
        PerpsInstruction::RemoveLiquidity { market_id, shares } => seq![3u8] + enc_u16(market_id) + enc_u64(shares),
        PerpsInstruction::OpenPosition { market_id, side, collateral, position_size, leverage } => seq![4u8]
            + enc_u16(market_id) + enc_side(side) + enc_u64(collateral) + enc_u64(position_size) + seq![leverage],
        PerpsInstruction::ClosePosition { market_id } => seq![5u8] + enc_u16(market_id),
        PerpsInstruction::Liquidate { market_id } => seq![6u8] + enc_u16(market_id),
        PerpsInstruction::PauseMarket { market_id, paused } => seq![7u8] + enc_u16(market_id) + enc_bool(paused),
        PerpsInstruction::UpdateMarket {
            market_id,
            oracle,
            max_leverage,
            maintenance_margin_bps,
            open_fee_bps,
            close_fee_bps,
            liquidation_fee_bps,
            max_staleness_seconds,
            max_confidence_bps,
        } => seq![8u8] + enc_u16(market_id) + enc_opt(opt_address_bytes(oracle)) + enc_opt(
            opt_u8_bytes(max_leverage),
        ) + enc_opt(opt_u16_bytes(maintenance_margin_bps)) + enc_opt(opt_u16_bytes(open_fee_bps)) + enc_opt(
            opt_u16_bytes(close_fee_bps),
        ) + enc_opt(opt_u16_bytes(liquidation_fee_bps)) + enc_opt(opt_i64_bytes(max_staleness_seconds))
            + enc_opt(opt_u64_bytes(max_confidence_bps)),
    }
}

/// Width of the value carried by each optional field of `UpdateMarket`, in order.
pub open spec fn update_width(k: nat) -> int {
    if k == 0 {
        32
    } else if k == 1 {
        1
    } else if k <= 5 {
        2
    } else {
        8
    }
}

/// Where the optional field starting at `pos` ends, or -1 when no optional
/// field of value width `w` starts there.
pub open spec fn opt_end(s: Seq<u8>, pos: int, w: int) -> int {
    if pos < 0 || pos >= s.len() {
        -1
    } else if s[pos] == 0 {
        pos + 1
    } else if s[pos] == 1 && pos + 1 + w <= s.len() {
        pos + 1 + w
    } else {
        -1
    }
}

/// The value bytes of the optional field starting at `pos`.
pub open spec fn opt_bytes_at(s: Seq<u8>, pos: int, w: int) -> Option<Seq<u8>> {
    if s[pos] == 0 {
        None
    } else {
        Some(s.subrange(pos + 1, pos + 1 + w))
    }
}

/// Where the `k`-th optional field of an `UpdateMarket` starts (for `k == 8`:
/// where the last one ends), or -1.
pub open spec fn update_end(s: Seq<u8>, k: nat) -> int
    decreases k,
{
    if k == 0 {
        3
    } else {
        opt_end(s, update_end(s, (k - 1) as nat), update_width((k - 1) as nat))
    }
}

/// Whether `s` is the encoding of some instruction: a known variant index,
/// exactly the right number of bytes, and only 0 or 1 where a flag, a side or
/// an option tag stands.
pub open spec fn well_formed(s: Seq<u8>) -> bool {
    s.len() >= 1 && {
        let tag = s[0];
        if tag == 0 {
            s.len() == 1
        } else if tag == 1 {
            s.len() == 60
        } else if tag == 2 || tag == 3 {
            s.len() == 11
        } else if tag == 4 {
            s.len() == 21 && s[3] <= 1
        } else if tag == 5 || tag == 6 {
            s.len() == 3
        } else if tag == 7 {
            s.len() == 4 && s[3] <= 1
        } else if tag == 8 {
            s.len() >= 3 && update_end(s, 8) == s.len()
        } else {
            false
        }
    }
}

pub proof fn lemma_u16_roundtrip(b: Seq<u8>)
    requires
        b.len() == 2,
    ensures
        le_value(b) <= u16::MAX,
        enc_u16(le_value(b) as u16) == b,
{
    lemma_le_value_bound(b);
    lemma_pow256_values();
    lemma_le_bytes_of_value(b);
}

pub proof fn lemma_u64_roundtrip(b: Seq<u8>)
    requires
        b.len() == 8,
    ensures
        le_value(b) <= u64::MAX,
        enc_u64(le_value(b) as u64) == b,
{
    lemma_le_value_bound(b);
    lemma_pow256_values();
    lemma_le_bytes_of_value(b);
}

/// The `i64` whose two's-complement bits are the unsigned `u`.
pub open spec fn i64_from_bits(u: u64) -> i64 {
    if u <= i64::MAX {
        u as i64
    } else {
        (u - 0x1_0000_0000_0000_0000int) as i64
    }
}

pub proof fn lemma_i64_roundtrip(b: Seq<u8>)
    requires
        b.len() == 8,
    ensures
        le_value(b) <= u64::MAX,
        enc_i64(i64_from_bits(le_value(b) as u64)) == b,
{
    lemma_u64_roundtrip(b);
}

fn read_u16(data: &[u8], pos: usize) -> (r: u16)
    requires
        pos + 2 <= data@.len(),
    ensures
        enc_u16(r) == data@.subrange(pos as int, pos + 2),
{
    let v = read_le(data, pos, 2);
    proof {
        lemma_u16_roundtrip(data@.subrange(pos as int, pos + 2));
    }
    v as u16
}

fn read_u64(data: &[u8], pos: usize) -> (r: u64)
    requires
        pos + 8 <= data@.len(),
    ensures
        enc_u64(r) == data@.subrange(pos as int, pos + 8),
{
    let v = read_le(data, pos, 8);
    proof {
        lemma_u64_roundtrip(data@.subrange(pos as int, pos + 8));
    }
    v
}

fn read_i64(data: &[u8], pos: usize) -> (r: i64)
    requires
        pos + 8 <= data@.len(),
    ensures
        enc_i64(r) == data@.subrange(pos as int, pos + 8),
{
    let v = read_le(data, pos, 8);
    proof {
        lemma_i64_roundtrip(data@.subrange(pos as int, pos + 8));
    }
    if v <= 0x7fff_ffff_ffff_ffff {
        v as i64
    } else {
        let high: u64 = v - 0x8000_0000_0000_0000;
        (high as i64) + i64::MIN
    }
}

fn read_address(data: &[u8], pos: usize) -> (r: Address)
    requires
        pos + 32 <= data@.len(),
    ensures
        r@ == data@.subrange(pos as int, pos + 32),
{
    let len = data.len();
    let mut bytes = [0u8; 32];
    let mut i: usize = 0;
    while i < 32
        invariant
            0 <= i <= 32,
            pos + 32 <= data@.len(),
            len == data@.len(),
            bytes@.len() == 32,
            forall|j: int| 0 <= j < i ==> bytes@[j] == data@[pos + j],
        decreases 32 - i,
    {
        bytes[i] = data[pos + i];
        i = i + 1;
    }
    let r = Address { bytes };
    proof {
        assert(r@ =~= data@.subrange(pos as int, pos + 32));
    }
    r
}


proof fn lemma_update_end_stuck(s: Seq<u8>, k: nat, j: nat)
    requires
        update_end(s, k) == -1,
        k <= j,
    ensures
        update_end(s, j) == -1,
    decreases j - k,
{
    if k < j {
        lemma_update_end_stuck(s, k, (j - 1) as nat);
    }
}

/// The bytes of a present-or-absent field are its tag byte and value bytes.
proof fn lemma_opt_piece(s: Seq<u8>, pos: int, w: int)
    requires
        opt_end(s, pos, w) != -1,
        w >= 0,
    ensures
        s.subrange(pos, opt_end(s, pos, w)) == enc_opt(opt_bytes_at(s, pos, w)),
{
    if s[pos] == 0 {
        assert(s.subrange(pos, pos + 1) =~= seq![0u8]);
    } else {
        assert(s.subrange(pos, pos + 1 + w) =~= seq![1u8] + s.subrange(pos + 1, pos + 1 + w));
    }
}

/// Steps over the optional field of value width `w` starting at `pos`:
/// whether the value is present and where the field ends.
fn opt_step(data: &[u8], pos: usize, w: usize) -> (r: Option<(bool, usize)>)
    requires
        w <= 32,
    ensures
        r is None ==> opt_end(data@, pos as int, w as int) == -1,
        r matches Some(step) ==> {
            &&& step.1 as int == opt_end(data@, pos as int, w as int)
            &&& step.1 as int != -1
            &&& step.0 == (data@[pos as int] == 1)
        },
{
    let len = data.len();
    if pos >= len {
        return None;
    }
    let tag = data[pos];
    if tag == 0 {
        Some((false, pos + 1))
    } else if tag == 1 && w < len - pos {
        Some((true, pos + 1 + w))
    } else {
        None
    }
}

fn decode_create_market(data: &[u8]) -> (r: PerpsInstruction)
    requires
        data@.len() == 60,
        data@[0] == 1,
    ensures
        encode(r) == data@,
{
    let market_id = read_u16(data, 1);
    let oracle = read_address(data, 3);
    let max_leverage = data[35];
    let maintenance_margin_bps = read_u16(data, 36);
    let open_fee_bps = read_u16(data, 38);
    let close_fee_bps = read_u16(data, 40);
    let liquidation_fee_bps = read_u16(data, 42);
    let max_staleness_seconds = read_i64(data, 44);
    let max_confidence_bps = read_u64(data, 52);
    let r = PerpsInstruction::CreateMarket {
        market_id,
        oracle,
        max_leverage,
        maintenance_margin_bps,
        open_fee_bps,
        close_fee_bps,
        liquidation_fee_bps,
        max_staleness_seconds,
        max_confidence_bps,
    };
    proof {
        let s = data@;
        assert(s =~= seq![s[0]] + s.subrange(1, 3) + s.subrange(3, 35) + seq![s[35]] + s.subrange(36, 38)
            + s.subrange(38, 40) + s.subrange(40, 42) + s.subrange(42, 44) + s.subrange(44, 52) + s.subrange(52, 60));
    }
    r
}

fn decode_amount(data: &[u8], tag: u8) -> (r: PerpsInstruction)
    requires
        data@.len() == 11,
        data@[0] == tag,
        tag == 2 || tag == 3,
    ensures
        encode(r) == data@,
{
    let market_id = read_u16(data, 1);
    let amount = read_u64(data, 3);
    proof {
        let s = data@;
        assert(s =~= seq![s[0]] + s.subrange(1, 3) + s.subrange(3, 11));
    }
    if tag == 2 {
        PerpsInstruction::AddLiquidity { market_id, amount }
    } else {
        PerpsInstruction::RemoveLiquidity { market_id, shares: amount }
    }
}

fn decode_open_position(data: &[u8]) -> (r: PerpsInstruction)
    requires
        data@.len() == 21,
        data@[0] == 4,
        data@[3] <= 1,
    ensures
        encode(r) == data@,
{
    let market_id = read_u16(data, 1);
    let side = if data[3] == 0 {
        Side::Long
    } else {
        Side::Short
    };
    let collateral = read_u64(data, 4);
    let position_size = read_u64(data, 12);
    let leverage = data[20];
    proof {
        let s = data@;
        assert(enc_side(side) =~= s.subrange(3, 4));
        assert(s =~= seq![s[0]] + s.subrange(1, 3) + s.subrange(3, 4) + s.subrange(4, 12) + s.subrange(12, 20)
            + seq![s[20]]);
    }
    PerpsInstruction::OpenPosition { market_id, side, collateral, position_size, leverage }
}

fn decode_market_only(data: &[u8], tag: u8) -> (r: PerpsInstruction)
    requires
        data@.len() == 3,
        data@[0] == tag,
        tag == 5 || tag == 6,
    ensures
        encode(r) == data@,
{
    let market_id = read_u16(data, 1);
    proof {
        let s = data@;
        assert(s =~= seq![s[0]] + s.subrange(1, 3));
    }
    if tag == 5 {
        PerpsInstruction::ClosePosition { market_id }
    } else {
        PerpsInstruction::Liquidate { market_id }
    }
}

fn decode_pause_market(data: &[u8]) -> (r: PerpsInstruction)
    requires
        data@.len() == 4,
        data@[0] == 7,
        data@[3] <= 1,
    ensures
        encode(r) == data@,
{
    let market_id = read_u16(data, 1);
    let paused = data[3] == 1;
    proof {
        let s = data@;
        assert(enc_bool(paused) =~= s.subrange(3, 4));
        assert(s =~= seq![s[0]] + s.subrange(1, 3) + s.subrange(3, 4));
    }
    PerpsInstruction::PauseMarket { market_id, paused }
}

/// An `UpdateMarket` encoding is its first three bytes followed by the bytes
/// of each optional field.
proof fn lemma_update_pieces(s: Seq<u8>, e1: int, e2: int, e3: int, e4: int, e5: int, e6: int, e7: int, e8: int)
    requires
        3 <= e1 <= e2 <= e3 <= e4 <= e5 <= e6 <= e7 <= e8,
        e8 == s.len(),
    ensures
        s == seq![s[0]] + s.subrange(1, 3) + s.subrange(3, e1) + s.subrange(e1, e2) + s.subrange(e2, e3)
            + s.subrange(e3, e4) + s.subrange(e4, e5) + s.subrange(e5, e6) + s.subrange(e6, e7) + s.subrange(e7, e8),
{
    assert(s =~= seq![s[0]] + s.subrange(1, 3) + s.subrange(3, e1) + s.subrange(e1, e2) + s.subrange(e2, e3)
        + s.subrange(e3, e4) + s.subrange(e4, e5) + s.subrange(e5, e6) + s.subrange(e6, e7) + s.subrange(e7, e8));
}


/// Reads the optional `Address` field starting at `pos`, and where it ends.
fn read_opt_address(data: &[u8], pos: usize) -> (r: Option<(Option<Address>, usize)>)
    ensures
        r is None ==> opt_end(data@, pos as int, 32) == -1,
        r matches Some(field) ==> {
            &&& field.1 as int == opt_end(data@, pos as int, 32)
            &&& field.1 as int != -1
            &&& data@.subrange(pos as int, field.1 as int) == enc_opt(opt_address_bytes(field.0))
        },
{
    let (present, next) = match opt_step(data, pos, 32) {
        Some(step) => step,
        None => return None,
    };
    let value = if present {
        Some(read_address(data, pos + 1))
    } else {
        None
    };
    proof {
        lemma_opt_piece(data@, pos as int, 32);
        assert(opt_address_bytes(value) == opt_bytes_at(data@, pos as int, 32));
    }
    Some((value, next))
}

/// Reads the optional `u8` field starting at `pos`, and where it ends.
fn read_opt_u8(data: &[u8], pos: usize) -> (r: Option<(Option<u8>, usize)>)
    ensures
        r is None ==> opt_end(data@, pos as int, 1) == -1,
        r matches Some(field) ==> {
            &&& field.1 as int == opt_end(data@, pos as int, 1)
            &&& field.1 as int != -1
            &&& data@.subrange(pos as int, field.1 as int) == enc_opt(opt_u8_bytes(field.0))
        },
{
    let (present, next) = match opt_step(data, pos, 1) {
        Some(step) => step,
        None => return None,
    };
    let value = if present {
        Some(data[pos + 1])
    } else {
        None
    };
    proof {
        lemma_opt_piece(data@, pos as int, 1);
        if present {
            assert(seq![data@[pos + 1]] =~= data@.subrange(pos + 1, pos + 2));
        }
        assert(opt_u8_bytes(value) == opt_bytes_at(data@, pos as int, 1));
    }
    Some((value, next))
}

/// Reads the optional `u16` field starting at `pos`, and where it ends.
fn read_opt_u16(data: &[u8], pos: usize) -> (r: Option<(Option<u16>, usize)>)
    ensures
        r is None ==> opt_end(data@, pos as int, 2) == -1,
        r matches Some(field) ==> {
            &&& field.1 as int == opt_end(data@, pos as int, 2)
            &&& field.1 as int != -1
            &&& data@.subrange(pos as int, field.1 as int) == enc_opt(opt_u16_bytes(field.0))
        },
{
    let (present, next) = match opt_step(data, pos, 2) {
        Some(step) => step,
        None => return None,
    };
    let value = if present {
        Some(read_u16(data, pos + 1))
    } else {
        None
    };
    proof {
        lemma_opt_piece(data@, pos as int, 2);
        assert(opt_u16_bytes(value) == opt_bytes_at(data@, pos as int, 2));
    }
    Some((value, next))
}

/// Reads the optional `i64` field starting at `pos`, and where it ends.
fn read_opt_i64(data: &[u8], pos: usize) -> (r: Option<(Option<i64>, usize)>)
    ensures
        r is None ==> opt_end(data@, pos as int, 8) == -1,
        r matches Some(field) ==> {
            &&& field.1 as int == opt_end(data@, pos as int, 8)
            &&& field.1 as int != -1
            &&& data@.subrange(pos as int, field.1 as int) == enc_opt(opt_i64_bytes(field.0))
        },
{
    let (present, next) = match opt_step(data, pos, 8) {
        Some(step) => step,
        None => return None,
    };
    let value = if present {
        Some(read_i64(data, pos + 1))
    } else {
        None
    };
    proof {
        lemma_opt_piece(data@, pos as int, 8);
        assert(opt_i64_bytes(value) == opt_bytes_at(data@, pos as int, 8));
    }
    Some((value, next))
}

/// Reads the optional `u64` field starting at `pos`, and where it ends.
fn read_opt_u64(data: &[u8], pos: usize) -> (r: Option<(Option<u64>, usize)>)
    ensures
        r is None ==> opt_end(data@, pos as int, 8) == -1,
        r matches Some(field) ==> {
            &&& field.1 as int == opt_end(data@, pos as int, 8)
            &&& field.1 as int != -1
            &&& data@.subrange(pos as int, field.1 as int) == enc_opt(opt_u64_bytes(field.0))
        },
{
    let (present, next) = match opt_step(data, pos, 8) {
        Some(step) => step,
        None => return None,
    };
    let value = if present {
        Some(read_u64(data, pos + 1))
    } else {
        None
    };
    proof {
        lemma_opt_piece(data@, pos as int, 8);
        assert(opt_u64_bytes(value) == opt_bytes_at(data@, pos as int, 8));
    }
    Some((value, next))
}

#[verifier::spinoff_prover]
fn decode_update_market(data: &[u8]) -> (r: Option<PerpsInstruction>)
    requires
        data@.len() >= 3,
        data@[0] == 8,
    ensures
        r matches Some(ix) ==> encode(ix) == data@,
        r is None ==> update_end(data@, 8) != data@.len(),
{
    let ghost s = data@;
    let len = data.len();
    let market_id = read_u16(data, 1);
    let e0: usize = 3;
    assert(update_end(s, 0) == 3);
    let (oracle, e1) = match read_opt_address(data, e0) {
        Some(field) => field,
        None => {
            proof {
                assert(update_end(s, 1) == -1);
                lemma_update_end_stuck(s, 1, 8);
            }
            return None;
        },
    };
    assert(update_end(s, 1) == e1);
    let (max_leverage, e2) = match read_opt_u8(data, e1) {
        Some(field) => field,
        None => {
            proof {
                assert(update_end(s, 2) == -1);
                lemma_update_end_stuck(s, 2, 8);
            }
            return None;
        },
    };
    assert(update_end(s, 2) == e2);
    let (maintenance_margin_bps, e3) = match read_opt_u16(data, e2) {
        Some(field) => field,
        None => {
            proof {
                assert(update_end(s, 3) == -1);
                lemma_update_end_stuck(s, 3, 8);
            }
            return None;
        },
    };
    assert(update_end(s, 3) == e3);
    let (open_fee_bps, e4) = match read_opt_u16(data, e3) {
        Some(field) => field,
        None => {
            proof {
                assert(update_end(s, 4) == -1);
                lemma_update_end_stuck(s, 4, 8);
            }
            return None;
        },
    };
    assert(update_end(s, 4) == e4);
    let (close_fee_bps, e5) = match read_opt_u16(data, e4) {
        Some(field) => field,
        None => {
            proof {
                assert(update_end(s, 5) == -1);
                lemma_update_end_stuck(s, 5, 8);
            }
            return None;
        },
    };
    assert(update_end(s, 5) == e5);
    let (liquidation_fee_bps, e6) = match read_opt_u16(data, e5) {
        Some(field) => field,
        None => {
            proof {
                assert(update_end(s, 6) == -1);
                lemma_update_end_stuck(s, 6, 8);
            }
            return None;
        },
    };
    assert(update_end(s, 6) == e6);
    let (max_staleness_seconds, e7) = match read_opt_i64(data, e6) {
        Some(field) => field,
        None => {
            proof {
                assert(update_end(s, 7) == -1);
                lemma_update_end_stuck(s, 7, 8);
            }
            return None;
        },
    };
    assert(update_end(s, 7) == e7);
    let (max_confidence_bps, e8) = match read_opt_u64(data, e7) {
        Some(field) => field,
        None => {
            proof {
                assert(update_end(s, 8) == -1);
                lemma_update_end_stuck(s, 8, 8);
            }
            return None;
        },
    };
    assert(update_end(s, 8) == e8);
    if e8 != len {
        return None;
    }
    proof {
        lemma_update_pieces(s, e1 as int, e2 as int, e3 as int, e4 as int, e5 as int, e6 as int, e7 as int, e8 as int);
    }
    Some(PerpsInstruction::UpdateMarket {
        market_id,
        oracle,
        max_leverage,
        maintenance_margin_bps,
        open_fee_bps,
        close_fee_bps,
        liquidation_fee_bps,
        max_staleness_seconds,
        max_confidence_bps,
    })
}

/// Decodes the bytes of an instruction: `None` unless they are well formed.
fn decode(data: &[u8]) -> (r: Option<PerpsInstruction>)
    ensures
        r matches Some(ix) ==> encode(ix) == data@,
        r is None ==> !well_formed(data@),
{
    let len = data.len();
    if len == 0 {
        return None;
    }
    let tag = data[0];
    if tag == 0 {
        if len != 1 {
            return None;
        }
        proof {
            assert(data@ =~= seq![0u8]);
        }
        Some(PerpsInstruction::Initialize)
    } else if tag == 1 {
        if len != 60 {
            return None;
        }
        Some(decode_create_market(data))
    } else if tag == 2 || tag == 3 {
        if len != 11 {
            return None;
        }
        Some(decode_amount(data, tag))
    } else if tag == 4 {
        if len != 21 || data[3] > 1 {
            return None;
        }
        Some(decode_open_position(data))
    } else if tag == 5 || tag == 6 {
        if len != 3 {
            return None;
        }
        Some(decode_market_only(data, tag))
    } else if tag == 7 {
        if len != 4 || data[3] > 1 {
            return None;
        }
        Some(decode_pause_market(data))
    } else if tag == 8 {
        if len < 3 {
            return None;
        }
        decode_update_market(data)
    } else {
        None
    }
}

proof fn lemma_enc_lens(ix: PerpsInstruction)
    ensures
        ix matches PerpsInstruction::CreateMarket { market_id, maintenance_margin_bps, open_fee_bps, close_fee_bps, liquidation_fee_bps, max_staleness_seconds, max_confidence_bps, .. } ==> {
            &&& enc_u16(market_id).len() == 2
            &&& enc_u16(maintenance_margin_bps).len() == 2
            &&& enc_u16(open_fee_bps).len() == 2
            &&& enc_u16(close_fee_bps).len() == 2
            &&& enc_u16(liquidation_fee_bps).len() == 2
            &&& enc_i64(max_staleness_seconds).len() == 8
            &&& enc_u64(max_confidence_bps).len() == 8
        },
{
    match ix {
        PerpsInstruction::CreateMarket { market_id, maintenance_margin_bps, open_fee_bps, close_fee_bps, liquidation_fee_bps, max_staleness_seconds, max_confidence_bps, .. } => {
            lemma_le_bytes_len(market_id as nat, 2);
            lemma_le_bytes_len(maintenance_margin_bps as nat, 2);
            lemma_le_bytes_len(open_fee_bps as nat, 2);
            lemma_le_bytes_len(close_fee_bps as nat, 2);
            lemma_le_bytes_len(liquidation_fee_bps as nat, 2);
            lemma_le_bytes_len(if max_staleness_seconds >= 0 { max_staleness_seconds as nat } else { (max_staleness_seconds + 0x1_0000_0000_0000_0000int) as nat }, 8);
            lemma_le_bytes_len(max_confidence_bps as nat, 8);
        },
        _ => {},
    }
}

pub proof fn lemma_enc_u16_injective(x: u16, y: u16)
    ensures
        enc_u16(x).len() == 2,
        enc_u16(x) == enc_u16(y) ==> x == y,
{
    lemma_pow256_values();
    lemma_le_value_of_bytes(x as nat, 2);
    lemma_le_value_of_bytes(y as nat, 2);
}

pub proof fn lemma_enc_u64_injective(x: u64, y: u64)
    ensures
        enc_u64(x).len() == 8,
        enc_u64(x) == enc_u64(y) ==> x == y,
{
    lemma_pow256_values();
    lemma_le_value_of_bytes(x as nat, 8);
    lemma_le_value_of_bytes(y as nat, 8);
}

pub proof fn lemma_enc_i64_injective(x: i64, y: i64)
    ensures
        enc_i64(x).len() == 8,
        enc_i64(x) == enc_i64(y) ==> x == y,
{
    lemma_pow256_values();
    let ux: nat = if x >= 0 { x as nat } else { (x + 0x1_0000_0000_0000_0000int) as nat };
    let uy: nat = if y >= 0 { y as nat } else { (y + 0x1_0000_0000_0000_0000int) as nat };
    lemma_le_value_of_bytes(ux, 8);
    lemma_le_value_of_bytes(uy, 8);
}

pub proof fn lemma_address_injective(a: Address, b: Address)
    ensures
        a@.len() == 32,
        a@ == b@ ==> a == b,
{
    if a@ == b@ {
        assert(a.bytes =~= b.bytes);
    }
}

proof fn lemma_create_market_layout(ix: PerpsInstruction)
    requires
        ix is CreateMarket,
    ensures
        ({
            let s = encode(ix);
            &&& s.len() == 60
            &&& s[0] == 1
            &&& s.subrange(1, 3) == enc_u16(ix->CreateMarket_market_id)
            &&& s.subrange(3, 35) == ix->CreateMarket_oracle@
            &&& s[35] == ix->CreateMarket_max_leverage
            &&& s.subrange(36, 38) == enc_u16(ix->CreateMarket_maintenance_margin_bps)
            &&& s.subrange(38, 40) == enc_u16(ix->CreateMarket_open_fee_bps)
            &&& s.subrange(40, 42) == enc_u16(ix->CreateMarket_close_fee_bps)
            &&& s.subrange(42, 44) == enc_u16(ix->CreateMarket_liquidation_fee_bps)
            &&& s.subrange(44, 52) == enc_i64(ix->CreateMarket_max_staleness_seconds)
            &&& s.subrange(52, 60) == enc_u64(ix->CreateMarket_max_confidence_bps)
        }),
{
    lemma_enc_lens(ix);
    lemma_address_injective(ix->CreateMarket_oracle, ix->CreateMarket_oracle);
    let s = encode(ix);
    let a1 = seq![1u8] + enc_u16(ix->CreateMarket_market_id);
    let a2 = a1 + ix->CreateMarket_oracle@;
    let a3 = a2 + seq![ix->CreateMarket_max_leverage];
    let a4 = a3 + enc_u16(ix->CreateMarket_maintenance_margin_bps);
    let a5 = a4 + enc_u16(ix->CreateMarket_open_fee_bps);
    let a6 = a5 + enc_u16(ix->CreateMarket_close_fee_bps);
    let a7 = a6 + enc_u16(ix->CreateMarket_liquidation_fee_bps);
    let a8 = a7 + enc_i64(ix->CreateMarket_max_staleness_seconds);
    assert(s == a8 + enc_u64(ix->CreateMarket_max_confidence_bps));
    assert(s.subrange(52, 60) =~= enc_u64(ix->CreateMarket_max_confidence_bps));
    assert(s.subrange(0, 52) =~= a8);
    assert(a8.subrange(44, 52) =~= enc_i64(ix->CreateMarket_max_staleness_seconds));
    assert(s.subrange(44, 52) =~= a8.subrange(44, 52));
    assert(a8.subrange(0, 44) =~= a7);
    assert(s.subrange(0, 44) =~= a7);
    assert(a7.subrange(42, 44) =~= enc_u16(ix->CreateMarket_liquidation_fee_bps));
    assert(s.subrange(42, 44) =~= a7.subrange(42, 44));
    assert(a7.subrange(0, 42) =~= a6);
    assert(s.subrange(0, 42) =~= a6);
    assert(s.subrange(40, 42) =~= a6.subrange(40, 42));
    assert(a6.subrange(40, 42) =~= enc_u16(ix->CreateMarket_close_fee_bps));
    assert(a6.subrange(0, 40) =~= a5);
    assert(s.subrange(0, 40) =~= a5);
    assert(s.subrange(38, 40) =~= a5.subrange(38, 40));
    assert(a5.subrange(38, 40) =~= enc_u16(ix->CreateMarket_open_fee_bps));
    assert(a5.subrange(0, 38) =~= a4);
    assert(s.subrange(0, 38) =~= a4);
    assert(s.subrange(36, 38) =~= a4.subrange(36, 38));
    assert(a4.subrange(36, 38) =~= enc_u16(ix->CreateMarket_maintenance_margin_bps));
    assert(a4.subrange(0, 36) =~= a3);
    assert(s.subrange(0, 36) =~= a3);
    assert(s[35] == a3[35]);
    assert(a3.subrange(0, 35) =~= a2);
    assert(s.subrange(0, 35) =~= a2);
    assert(s.subrange(3, 35) =~= a2.subrange(3, 35));
    assert(a2.subrange(3, 35) =~= ix->CreateMarket_oracle@);
    assert(a2.subrange(0, 3) =~= a1);
    assert(s.subrange(0, 3) =~= a1);
    assert(s.subrange(1, 3) =~= a1.subrange(1, 3));
    assert(a1.subrange(1, 3) =~= enc_u16(ix->CreateMarket_market_id));
}

/// An optional field written right after the prefix `a` is read back where it stands.
proof fn lemma_opt_at(s: Seq<u8>, a: Seq<u8>, o: Option<Seq<u8>>, w: int)
    requires
        w >= 0,
        s.len() >= a.len() + enc_opt(o).len(),
        s.subrange(0, (a.len() + enc_opt(o).len()) as int) == a + enc_opt(o),
        o matches Some(p) ==> p.len() == w,
    ensures
        opt_end(s, a.len() as int, w) == a.len() + enc_opt(o).len(),
        opt_bytes_at(s, a.len() as int, w) == o,
{
    let t = a + enc_opt(o);
    assert(s[a.len() as int] == t[a.len() as int]);
    match o {
        None => {},
        Some(p) => {
            let lo: int = a.len() as int + 1;
            assert(s.subrange(lo, lo + w) =~= t.subrange(lo, lo + w));
            assert(t.subrange(lo, lo + w) =~= p);
        },
    }
}

proof fn lemma_prefix(x: Seq<u8>, y: Seq<u8>)
    ensures
        (x + y).subrange(0, x.len() as int) == x,
{
    assert((x + y).subrange(0, x.len() as int) =~= x);
}

proof fn lemma_prefix_trans(s: Seq<u8>, m: int, n: int)
    requires
        0 <= n <= m <= s.len(),
    ensures
        s.subrange(0, m).subrange(0, n) == s.subrange(0, n),
{
    assert(s.subrange(0, m).subrange(0, n) =~= s.subrange(0, n));
}

proof fn lemma_opt_payload_lens(ix: PerpsInstruction)
    requires
        ix is UpdateMarket,
    ensures
        opt_address_bytes(ix->UpdateMarket_oracle) matches Some(p) ==> p.len() == 32,
        opt_u8_bytes(ix->UpdateMarket_max_leverage) matches Some(p) ==> p.len() == 1,
        opt_u16_bytes(ix->UpdateMarket_maintenance_margin_bps) matches Some(p) ==> p.len() == 2,
        opt_u16_bytes(ix->UpdateMarket_open_fee_bps) matches Some(p) ==> p.len() == 2,
        opt_u16_bytes(ix->UpdateMarket_close_fee_bps) matches Some(p) ==> p.len() == 2,
        opt_u16_bytes(ix->UpdateMarket_liquidation_fee_bps) matches Some(p) ==> p.len() == 2,
        opt_i64_bytes(ix->UpdateMarket_max_staleness_seconds) matches Some(p) ==> p.len() == 8,
        opt_u64_bytes(ix->UpdateMarket_max_confidence_bps) matches Some(p) ==> p.len() == 8,
{
    match ix->UpdateMarket_oracle {
        Some(a) => lemma_address_injective(a, a),
        None => {},
    }
    match ix->UpdateMarket_maintenance_margin_bps {
        Some(v) => lemma_enc_u16_injective(v, v),
        None => {},
    }
    match ix->UpdateMarket_open_fee_bps {
        Some(v) => lemma_enc_u16_injective(v, v),
        None => {},
    }
    match ix->UpdateMarket_close_fee_bps {
        Some(v) => lemma_enc_u16_injective(v, v),
        None => {},
    }
    match ix->UpdateMarket_liquidation_fee_bps {
        Some(v) => lemma_enc_u16_injective(v, v),
        None => {},
    }
    match ix->UpdateMarket_max_staleness_seconds {
        Some(v) => lemma_enc_i64_injective(v, v),
        None => {},
    }
    match ix->UpdateMarket_max_confidence_bps {
        Some(v) => lemma_enc_u64_injective(v, v),
        None => {},
    }
}

#[verifier::spinoff_prover]
proof fn lemma_update_layout(ix: PerpsInstruction)
    requires
        ix is UpdateMarket,
    ensures
        ({
            let s = encode(ix);
            &&& s.len() >= 3
            &&& s[0] == 8
            &&& s.subrange(1, 3) == enc_u16(ix->UpdateMarket_market_id)
            &&& update_end(s, 8) == s.len()
            &&& opt_bytes_at(s, update_end(s, 0), 32) == opt_address_bytes(ix->UpdateMarket_oracle)
            &&& opt_bytes_at(s, update_end(s, 1), 1) == opt_u8_bytes(ix->UpdateMarket_max_leverage)
            &&& opt_bytes_at(s, update_end(s, 2), 2) == opt_u16_bytes(ix->UpdateMarket_maintenance_margin_bps)
            &&& opt_bytes_at(s, update_end(s, 3), 2) == opt_u16_bytes(ix->UpdateMarket_open_fee_bps)
            &&& opt_bytes_at(s, update_end(s, 4), 2) == opt_u16_bytes(ix->UpdateMarket_close_fee_bps)
            &&& opt_bytes_at(s, update_end(s, 5), 2) == opt_u16_bytes(ix->UpdateMarket_liquidation_fee_bps)
            &&& opt_bytes_at(s, update_end(s, 6), 8) == opt_i64_bytes(ix->UpdateMarket_max_staleness_seconds)
            &&& opt_bytes_at(s, update_end(s, 7), 8) == opt_u64_bytes(ix->UpdateMarket_max_confidence_bps)
        }),
{
    lemma_opt_payload_lens(ix);
    lemma_enc_u16_injective(ix->UpdateMarket_market_id, ix->UpdateMarket_market_id);
    let s = encode(ix);
    let a0 = seq![8u8] + enc_u16(ix->UpdateMarket_market_id);
    let o1 = opt_address_bytes(ix->UpdateMarket_oracle);
    let a1 = a0 + enc_opt(o1);
    let o2 = opt_u8_bytes(ix->UpdateMarket_max_leverage);
    let a2 = a1 + enc_opt(o2);
    let o3 = opt_u16_bytes(ix->UpdateMarket_maintenance_margin_bps);
    let a3 = a2 + enc_opt(o3);
    let o4 = opt_u16_bytes(ix->UpdateMarket_open_fee_bps);
    let a4 = a3 + enc_opt(o4);
    let o5 = opt_u16_bytes(ix->UpdateMarket_close_fee_bps);
    let a5 = a4 + enc_opt(o5);
    let o6 = opt_u16_bytes(ix->UpdateMarket_liquidation_fee_bps);
    let a6 = a5 + enc_opt(o6);
    let o7 = opt_i64_bytes(ix->UpdateMarket_max_staleness_seconds);
    let a7 = a6 + enc_opt(o7);
    let o8 = opt_u64_bytes(ix->UpdateMarket_max_confidence_bps);
    let a8 = a7 + enc_opt(o8);
    assert(s == a8);
    lemma_prefix(a7, enc_opt(o8));
    assert(s.subrange(0, a7.len() as int) == a7);
    lemma_prefix(a6, enc_opt(o7));
    lemma_prefix_trans(s, a7.len() as int, a6.len() as int);
    assert(s.subrange(0, a6.len() as int) == a6);
    lemma_prefix(a5, enc_opt(o6));
    lemma_prefix_trans(s, a6.len() as int, a5.len() as int);
    assert(s.subrange(0, a5.len() as int) == a5);
    lemma_prefix(a4, enc_opt(o5));
    lemma_prefix_trans(s, a5.len() as int, a4.len() as int);
    assert(s.subrange(0, a4.len() as int) == a4);
    lemma_prefix(a3, enc_opt(o4));
    lemma_prefix_trans(s, a4.len() as int, a3.len() as int);
    assert(s.subrange(0, a3.len() as int) == a3);
    lemma_prefix(a2, enc_opt(o3));
    lemma_prefix_trans(s, a3.len() as int, a2.len() as int);
    assert(s.subrange(0, a2.len() as int) == a2);
    lemma_prefix(a1, enc_opt(o2));
    lemma_prefix_trans(s, a2.len() as int, a1.len() as int);
    assert(s.subrange(0, a1.len() as int) == a1);
    lemma_prefix(a0, enc_opt(o1));
    lemma_prefix_trans(s, a1.len() as int, a0.len() as int);
    assert(s.subrange(0, a0.len() as int) == a0);
    assert(s.subrange(0, a8.len() as int) =~= a8);
    assert(a0.subrange(1, 3) =~= enc_u16(ix->UpdateMarket_market_id));
    assert(s.subrange(1, 3) =~= a0.subrange(1, 3));
    assert(update_end(s, 0) == a0.len());
    lemma_opt_at(s, a0, o1, 32);
    assert(update_end(s, 1) == a1.len());
    lemma_opt_at(s, a1, o2, 1);
    assert(update_end(s, 2) == a2.len());
    lemma_opt_at(s, a2, o3, 2);
    assert(update_end(s, 3) == a3.len());
    lemma_opt_at(s, a3, o4, 2);
    assert(update_end(s, 4) == a4.len());
    lemma_opt_at(s, a4, o5, 2);
    assert(update_end(s, 5) == a5.len());
    lemma_opt_at(s, a5, o6, 2);
    assert(update_end(s, 6) == a6.len());
    lemma_opt_at(s, a6, o7, 8);
    assert(update_end(s, 7) == a7.len());
    lemma_opt_at(s, a7, o8, 8);
    assert(update_end(s, 8) == a8.len());
}

proof fn lemma_small_layouts(ix: PerpsInstruction)
    ensures
        ix matches PerpsInstruction::AddLiquidity { market_id, amount } ==> {
            let s = encode(ix);
            &&& s.len() == 11 &&& s[0] == 2
            &&& s.subrange(1, 3) == enc_u16(market_id) &&& s.subrange(3, 11) == enc_u64(amount)
        },
        ix matches PerpsInstruction::RemoveLiquidity { market_id, shares } ==> {
            let s = encode(ix);
            &&& s.len() == 11 &&& s[0] == 3
            &&& s.subrange(1, 3) == enc_u16(market_id) &&& s.subrange(3, 11) == enc_u64(shares)
        },
        ix matches PerpsInstruction::OpenPosition { market_id, side, collateral, position_size, leverage } ==> {
            let s = encode(ix);
            &&& s.len() == 21 &&& s[0] == 4
            &&& s.subrange(1, 3) == enc_u16(market_id)
            &&& s.subrange(3, 4) == enc_side(side)
            &&& s.subrange(4, 12) == enc_u64(collateral)
            &&& s.subrange(12, 20) == enc_u64(position_size)
            &&& s[20] == leverage
        },
        ix matches PerpsInstruction::ClosePosition { market_id } ==> {
            let s = encode(ix);
            &&& s.len() == 3 &&& s[0] == 5 &&& s.subrange(1, 3) == enc_u16(market_id)
        },
        ix matches PerpsInstruction::Liquidate { market_id } ==> {
            let s = encode(ix);
            &&& s.len() == 3 &&& s[0] == 6 &&& s.subrange(1, 3) == enc_u16(market_id)
        },
        ix matches PerpsInstruction::PauseMarket { market_id, paused } ==> {
            let s = encode(ix);
            &&& s.len() == 4 &&& s[0] == 7
            &&& s.subrange(1, 3) == enc_u16(market_id) &&& s.subrange(3, 4) == enc_bool(paused)
        },
{
    let s = encode(ix);
    match ix {
        PerpsInstruction::AddLiquidity { market_id, amount } => {
            lemma_enc_u16_injective(market_id, market_id);
            lemma_enc_u64_injective(amount, amount);
            assert(s.subrange(1, 3) =~= enc_u16(market_id));
            assert(s.subrange(3, 11) =~= enc_u64(amount));
        },
        PerpsInstruction::RemoveLiquidity { market_id, shares } => {
            lemma_enc_u16_injective(market_id, market_id);
            lemma_enc_u64_injective(shares, shares);
            assert(s.subrange(1, 3) =~= enc_u16(market_id));
            assert(s.subrange(3, 11) =~= enc_u64(shares));
        },
        PerpsInstruction::OpenPosition { market_id, side, collateral, position_size, leverage } => {
            lemma_enc_u16_injective(market_id, market_id);
            lemma_enc_u64_injective(collateral, collateral);
            lemma_enc_u64_injective(position_size, position_size);
            let a1 = seq![4u8] + enc_u16(market_id);
            let a2 = a1 + enc_side(side);
            let a3 = a2 + enc_u64(collateral);
            let a4 = a3 + enc_u64(position_size);
            assert(s == a4 + seq![leverage]);
            assert(s.subrange(0, 20) =~= a4);
            assert(s.subrange(12, 20) =~= a4.subrange(12, 20));
            assert(a4.subrange(12, 20) =~= enc_u64(position_size));
            assert(a4.subrange(0, 12) =~= a3);
            assert(s.subrange(0, 12) =~= a3);
            assert(s.subrange(4, 12) =~= a3.subrange(4, 12));
            assert(a3.subrange(4, 12) =~= enc_u64(collateral));
            assert(a3.subrange(0, 4) =~= a2);
            assert(s.subrange(0, 4) =~= a2);
            assert(s.subrange(3, 4) =~= a2.subrange(3, 4));
            assert(a2.subrange(3, 4) =~= enc_side(side));
            assert(a2.subrange(0, 3) =~= a1);
            assert(s.subrange(0, 3) =~= a1);
            assert(s.subrange(1, 3) =~= a1.subrange(1, 3));
            assert(a1.subrange(1, 3) =~= enc_u16(market_id));
        },
        PerpsInstruction::ClosePosition { market_id } => {
            lemma_enc_u16_injective(market_id, market_id);
            assert(s.subrange(1, 3) =~= enc_u16(market_id));
        },
        PerpsInstruction::Liquidate { market_id } => {
            lemma_enc_u16_injective(market_id, market_id);
            assert(s.subrange(1, 3) =~= enc_u16(market_id));
        },
        PerpsInstruction::PauseMarket { market_id, paused } => {
            lemma_enc_u16_injective(market_id, market_id);
            assert(s.subrange(1, 3) =~= enc_u16(market_id));
            assert(s.subrange(3, 4) =~= enc_bool(paused));
        },
        _ => {},
    }
}

/// Every instruction's encoding is well formed, so it is never refused.
pub proof fn lemma_encode_well_formed(ix: PerpsInstruction)
    ensures
        well_formed(encode(ix)),
{
    let s = encode(ix);
    lemma_small_layouts(ix);
    match ix {
        PerpsInstruction::Initialize => {},
        PerpsInstruction::CreateMarket { .. } => {
            lemma_create_market_layout(ix);
        },
        PerpsInstruction::OpenPosition { side, .. } => {
            assert(s[3] == s.subrange(3, 4)[0]);
        },
        PerpsInstruction::PauseMarket { paused, .. } => {
            assert(s[3] == s.subrange(3, 4)[0]);
        },
        PerpsInstruction::UpdateMarket { .. } => {
            lemma_update_layout(ix);
        },
        _ => {},
    }
}

proof fn lemma_opt_fields_injective(
    oa: Option<Address>, ob: Option<Address>,
    la: Option<u8>, lb: Option<u8>,
    ua: Option<u16>, ub: Option<u16>,
    ia: Option<i64>, ib: Option<i64>,
    wa: Option<u64>, wb: Option<u64>,
)
    ensures
        opt_address_bytes(oa) == opt_address_bytes(ob) ==> oa == ob,
        opt_u8_bytes(la) == opt_u8_bytes(lb) ==> la == lb,
        opt_u16_bytes(ua) == opt_u16_bytes(ub) ==> ua == ub,
        opt_i64_bytes(ia) == opt_i64_bytes(ib) ==> ia == ib,
        opt_u64_bytes(wa) == opt_u64_bytes(wb) ==> wa == wb,
{
    if let (Some(x), Some(y)) = (oa, ob) {
        lemma_address_injective(x, y);
    }
    if let (Some(x), Some(y)) = (la, lb) {
        if seq![x] == seq![y] {
            assert(seq![x][0] == seq![y][0]);
        }
    }
    if let (Some(x), Some(y)) = (ua, ub) {
        lemma_enc_u16_injective(x, y);
    }
    if let (Some(x), Some(y)) = (ia, ib) {
        lemma_enc_i64_injective(x, y);
    }
    if let (Some(x), Some(y)) = (wa, wb) {
        lemma_enc_u64_injective(x, y);
    }
}

/// Distinct instructions have distinct encodings.
pub proof fn lemma_encode_injective(a: PerpsInstruction, b: PerpsInstruction)
    ensures
        encode(a) == encode(b) ==> a == b,
{
    if encode(a) == encode(b) {
        let s = encode(a);
        lemma_small_layouts(a);
        lemma_small_layouts(b);
        lemma_encode_well_formed(a);
        if a is CreateMarket {
            lemma_create_market_layout(a);
        }
        if b is CreateMarket {
            lemma_create_market_layout(b);
        }
        if a is UpdateMarket {
            lemma_update_layout(a);
        }
        if b is UpdateMarket {
            lemma_update_layout(b);
        }
        match (a, b) {
            (
                PerpsInstruction::CreateMarket { market_id: m1, oracle: o1, maintenance_margin_bps: mm1, open_fee_bps: of1, close_fee_bps: cf1, liquidation_fee_bps: lf1, max_staleness_seconds: st1, max_confidence_bps: cb1, .. },
                PerpsInstruction::CreateMarket { market_id: m2, oracle: o2, maintenance_margin_bps: mm2, open_fee_bps: of2, close_fee_bps: cf2, liquidation_fee_bps: lf2, max_staleness_seconds: st2, max_confidence_bps: cb2, .. },
            ) => {
                lemma_enc_u16_injective(m1, m2);
                lemma_address_injective(o1, o2);
                lemma_enc_u16_injective(mm1, mm2);
                lemma_enc_u16_injective(of1, of2);
                lemma_enc_u16_injective(cf1, cf2);
                lemma_enc_u16_injective(lf1, lf2);
                lemma_enc_i64_injective(st1, st2);
                lemma_enc_u64_injective(cb1, cb2);
            },
            (PerpsInstruction::AddLiquidity { market_id: m1, amount: x1 }, PerpsInstruction::AddLiquidity { market_id: m2, amount: x2 }) => {
                lemma_enc_u16_injective(m1, m2);
                lemma_enc_u64_injective(x1, x2);
            },
            (PerpsInstruction::RemoveLiquidity { market_id: m1, shares: x1 }, PerpsInstruction::RemoveLiquidity { market_id: m2, shares: x2 }) => {
                lemma_enc_u16_injective(m1, m2);
                lemma_enc_u64_injective(x1, x2);
            },
            (
                PerpsInstruction::OpenPosition { market_id: m1, side: d1, collateral: c1, position_size: p1, leverage: l1 },
                PerpsInstruction::OpenPosition { market_id: m2, side: d2, collateral: c2, position_size: p2, leverage: l2 },
            ) => {
                lemma_enc_u16_injective(m1, m2);
                lemma_enc_u64_injective(c1, c2);
                lemma_enc_u64_injective(p1, p2);
                assert(enc_side(d1)[0] == enc_side(d2)[0]);
            },
            (PerpsInstruction::ClosePosition { market_id: m1 }, PerpsInstruction::ClosePosition { market_id: m2 }) => {
                lemma_enc_u16_injective(m1, m2);
            },
            (PerpsInstruction::Liquidate { market_id: m1 }, PerpsInstruction::Liquidate { market_id: m2 }) => {
                lemma_enc_u16_injective(m1, m2);
            },
            (PerpsInstruction::PauseMarket { market_id: m1, paused: f1 }, PerpsInstruction::PauseMarket { market_id: m2, paused: f2 }) => {
                lemma_enc_u16_injective(m1, m2);
                assert(enc_bool(f1)[0] == enc_bool(f2)[0]);
            },
            (
                PerpsInstruction::UpdateMarket { market_id: m1, oracle: o1, max_leverage: l1, maintenance_margin_bps: mm1, open_fee_bps: of1, close_fee_bps: cf1, liquidation_fee_bps: lf1, max_staleness_seconds: st1, max_confidence_bps: cb1 },
                PerpsInstruction::UpdateMarket { market_id: m2, oracle: o2, max_leverage: l2, maintenance_margin_bps: mm2, open_fee_bps: of2, close_fee_bps: cf2, liquidation_fee_bps: lf2, max_staleness_seconds: st2, max_confidence_bps: cb2 },
            ) => {
                lemma_enc_u16_injective(m1, m2);
                lemma_opt_fields_injective(o1, o2, l1, l2, mm1, mm2, st1, st2, cb1, cb2);
                lemma_opt_fields_injective(o1, o2, l1, l2, of1, of2, st1, st2, cb1, cb2);
                lemma_opt_fields_injective(o1, o2, l1, l2, cf1, cf2, st1, st2, cb1, cb2);
                lemma_opt_fields_injective(o1, o2, l1, l2, lf1, lf2, st1, st2, cb1, cb2);
            },
            _ => {},
        }
    }
}

impl PerpsInstruction {
    /// Decodes instruction data: the instruction whose encoding the bytes are,
    /// or `None` when they encode none (they are not well formed).
    pub fn try_from_slice(data: &[u8]) -> (r: Option<PerpsInstruction>)
        ensures
            forall|ix: PerpsInstruction| #[trigger] encode(ix) == data@ <==> r == Some(ix),
            r is None <==> !well_formed(data@),
    {
        let r = decode(data);
        proof {
            assert forall|ix: PerpsInstruction| #[trigger] encode(ix) == data@ <==> r == Some(ix) by {
                lemma_encode_well_formed(ix);
                if let Some(found) = r {
                    lemma_encode_injective(ix, found);
                }
            }
            if let Some(found) = r {
                lemma_encode_well_formed(found);
            }
        }
        r
    }
}
} // verus!
