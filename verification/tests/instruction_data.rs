use perps::instruction::PerpsInstruction;
use perps::state::{Address, Side};

fn addr(n: u8) -> Address {
    Address { bytes: [n; 32] }
}

#[test]
fn decodes_initialize() {
    assert_eq!(PerpsInstruction::try_from_slice(&[0]), Some(PerpsInstruction::Initialize));
    assert_eq!(PerpsInstruction::try_from_slice(&[0, 0]), None);
}

#[test]
fn decodes_create_market() {
    let mut data = vec![1u8, 0x34, 0x12];
    data.extend_from_slice(&[7u8; 32]);
    data.push(20);
    data.extend_from_slice(&500u16.to_le_bytes());
    data.extend_from_slice(&10u16.to_le_bytes());
    data.extend_from_slice(&20u16.to_le_bytes());
    data.extend_from_slice(&100u16.to_le_bytes());
    data.extend_from_slice(&(-30i64).to_le_bytes());
    data.extend_from_slice(&250u64.to_le_bytes());
    assert_eq!(data.len(), 60);
    assert_eq!(
        PerpsInstruction::try_from_slice(&data),
        Some(PerpsInstruction::CreateMarket {
            market_id: 0x1234,
            oracle: addr(7),
            max_leverage: 20,
            maintenance_margin_bps: 500,
            open_fee_bps: 10,
            close_fee_bps: 20,
            liquidation_fee_bps: 100,
            max_staleness_seconds: -30,
            max_confidence_bps: 250,
        })
    );
    data.pop();
    assert_eq!(PerpsInstruction::try_from_slice(&data), None);
}

#[test]
fn decodes_liquidity_instructions() {
    let mut add = vec![2u8, 9, 0];
    add.extend_from_slice(&1_000_000u64.to_le_bytes());
    assert_eq!(PerpsInstruction::try_from_slice(&add), Some(PerpsInstruction::AddLiquidity { market_id: 9, amount: 1_000_000 }));
    let mut remove = vec![3u8, 9, 0];
    remove.extend_from_slice(&u64::MAX.to_le_bytes());
    assert_eq!(PerpsInstruction::try_from_slice(&remove), Some(PerpsInstruction::RemoveLiquidity { market_id: 9, shares: u64::MAX }));
}

#[test]
fn decodes_open_position() {
    let mut data = vec![4u8, 1, 0, 1];
    data.extend_from_slice(&5_000u64.to_le_bytes());
    data.extend_from_slice(&25_000u64.to_le_bytes());
    data.push(5);
    assert_eq!(
        PerpsInstruction::try_from_slice(&data),
        Some(PerpsInstruction::OpenPosition { market_id: 1, side: Side::Short, collateral: 5_000, position_size: 25_000, leverage: 5 })
    );
    data[3] = 0;
    assert_eq!(
        PerpsInstruction::try_from_slice(&data),
        Some(PerpsInstruction::OpenPosition { market_id: 1, side: Side::Long, collateral: 5_000, position_size: 25_000, leverage: 5 })
    );
    // A side other than 0 or 1 is refused.
    data[3] = 2;
    assert_eq!(PerpsInstruction::try_from_slice(&data), None);
}

#[test]
fn decodes_market_only_instructions() {
    assert_eq!(PerpsInstruction::try_from_slice(&[5, 3, 1]), Some(PerpsInstruction::ClosePosition { market_id: 259 }));
    assert_eq!(PerpsInstruction::try_from_slice(&[6, 3, 0]), Some(PerpsInstruction::Liquidate { market_id: 3 }));
    assert_eq!(PerpsInstruction::try_from_slice(&[5, 3]), None);
}

#[test]
fn decodes_pause_market() {
    assert_eq!(PerpsInstruction::try_from_slice(&[7, 2, 0, 1]), Some(PerpsInstruction::PauseMarket { market_id: 2, paused: true }));
    assert_eq!(PerpsInstruction::try_from_slice(&[7, 2, 0, 0]), Some(PerpsInstruction::PauseMarket { market_id: 2, paused: false }));
    assert_eq!(PerpsInstruction::try_from_slice(&[7, 2, 0, 2]), None);
}

#[test]
fn decodes_update_market() {
    let none = [8u8, 4, 0, 0, 0, 0, 0, 0, 0, 0, 0];
    assert_eq!(
        PerpsInstruction::try_from_slice(&none),
        Some(PerpsInstruction::UpdateMarket {
            market_id: 4,
            oracle: None,
            max_leverage: None,
            maintenance_margin_bps: None,
            open_fee_bps: None,
            close_fee_bps: None,
            liquidation_fee_bps: None,
            max_staleness_seconds: None,
            max_confidence_bps: None,
        })
    );
    let mut some = vec![8u8, 4, 0, 1];
    some.extend_from_slice(&[9u8; 32]);
    some.extend_from_slice(&[1, 15]);
    some.push(0);
    some.push(1);
    some.extend_from_slice(&25u16.to_le_bytes());
    some.extend_from_slice(&[0, 0]);
    some.push(1);
    some.extend_from_slice(&(-1i64).to_le_bytes());
    some.push(1);
    some.extend_from_slice(&77u64.to_le_bytes());
    assert_eq!(
        PerpsInstruction::try_from_slice(&some),
        Some(PerpsInstruction::UpdateMarket {
            market_id: 4,
            oracle: Some(addr(9)),
            max_leverage: Some(15),
            maintenance_margin_bps: None,
            open_fee_bps: Some(25),
            close_fee_bps: None,
            liquidation_fee_bps: None,
            max_staleness_seconds: Some(-1),
            max_confidence_bps: Some(77),
        })
    );
    // Trailing bytes, a truncated field and a bad option tag are refused.
    let mut trailing = some.clone();
    trailing.push(0);
    assert_eq!(PerpsInstruction::try_from_slice(&trailing), None);
    assert_eq!(PerpsInstruction::try_from_slice(&some[..some.len() - 1]), None);
    let mut bad_tag = none;
    bad_tag[5] = 2;
    assert_eq!(PerpsInstruction::try_from_slice(&bad_tag), None);
}

#[test]
fn refuses_unknown_and_empty_data() {
    assert_eq!(PerpsInstruction::try_from_slice(&[]), None);
    assert_eq!(PerpsInstruction::try_from_slice(&[9]), None);
    assert_eq!(PerpsInstruction::try_from_slice(&[255, 0, 0]), None);
}
