use ln_usdt_escrow::codec::{read_bytes, read_i64_le, read_u16_le, read_u64_le};
use ln_usdt_escrow::error::EscrowError;
use ln_usdt_escrow::instruction::{parse_ix, EscrowIx};
use ln_usdt_escrow::state::{ConfigState, EscrowState, CONFIG_LEN, ESCROW_LEN};

fn create_request() -> Vec<u8> {
    let mut d = vec![0u8];
    d.extend_from_slice(&[1u8; 32]);
    d.extend_from_slice(&[2u8; 32]);
    d.extend_from_slice(&[3u8; 32]);
    d.extend_from_slice(&(-5i64).to_le_bytes());
    d.extend_from_slice(&1_000_000u64.to_le_bytes());
    d.extend_from_slice(&100u16.to_le_bytes());
    d.extend_from_slice(&50u16.to_le_bytes());
    d.extend_from_slice(&[4u8; 32]);
    d
}

#[test]
fn reads_little_endian_fields() {
    let data = [0x34u8, 0x12, 1, 0, 0, 0, 0, 0, 0, 0, 0xff];
    let mut pos = 0usize;
    assert_eq!(read_u16_le(&data, &mut pos), Ok(0x1234));
    assert_eq!(pos, 2);
    assert_eq!(read_u64_le(&data, &mut pos), Ok(1));
    assert_eq!(pos, 10);
    assert_eq!(read_u16_le(&data, &mut pos), Err(EscrowError::InvalidInstruction));
    assert_eq!(pos, 10);
}

#[test]
fn reads_negative_i64() {
    let data = (-2i64).to_le_bytes();
    let mut pos = 0usize;
    assert_eq!(read_i64_le(&data, &mut pos), Ok(-2));
    let min = i64::MIN.to_le_bytes();
    let mut pos = 0usize;
    assert_eq!(read_i64_le(&min, &mut pos), Ok(i64::MIN));
}

#[test]
fn read_bytes_stops_short() {
    let data = [9u8; 5];
    let mut pos = 1usize;
    assert_eq!(read_bytes::<4>(&data, &mut pos), Ok([9u8; 4]));
    assert_eq!(pos, 5);
    let mut pos = 2usize;
    assert_eq!(read_bytes::<4>(&data, &mut pos), Err(EscrowError::InvalidInstruction));
    assert_eq!(pos, 2);
}

#[test]
fn parses_create_request() {
    match parse_ix(&create_request()) {
        Ok(EscrowIx::Init {
            payment_hash,
            recipient,
            refund,
            refund_after,
            amount,
            expected_platform_fee_bps,
            expected_trade_fee_bps,
            trade_fee_collector,
        }) => {
            assert_eq!(payment_hash, [1u8; 32]);
            assert_eq!(recipient, [2u8; 32]);
            assert_eq!(refund, [3u8; 32]);
            assert_eq!(refund_after, -5);
            assert_eq!(amount, 1_000_000);
            assert_eq!(expected_platform_fee_bps, 100);
            assert_eq!(expected_trade_fee_bps, 50);
            assert_eq!(trade_fee_collector, [4u8; 32]);
        }
        _ => panic!("create request did not decode"),
    }
}

#[test]
fn short_create_request_is_refused() {
    let mut d = create_request();
    d.pop();
    assert!(matches!(parse_ix(&d), Err(EscrowError::InvalidInstruction)));
}

#[test]
fn trailing_bytes_are_ignored() {
    let mut d = create_request();
    d.push(42);
    assert!(matches!(parse_ix(&d), Ok(EscrowIx::Init { .. })));
}

#[test]
fn parses_claim_and_refund() {
    let mut d = vec![1u8];
    d.extend_from_slice(&[8u8; 32]);
    assert!(matches!(parse_ix(&d), Ok(EscrowIx::Claim { preimage }) if preimage == [8u8; 32]));
    assert!(matches!(parse_ix(&d[..32]), Err(EscrowError::InvalidInstruction)));
    assert!(matches!(parse_ix(&[2u8]), Ok(EscrowIx::Refund)));
}

#[test]
fn parses_policy_requests() {
    for tag in [3u8, 4, 6, 7] {
        let mut d = vec![tag];
        d.extend_from_slice(&[5u8; 32]);
        d.extend_from_slice(&2500u16.to_le_bytes());
        let ok = match parse_ix(&d) {
            Ok(EscrowIx::InitConfig { fee_collector, fee_bps }) => tag == 3 && fee_collector == [5u8; 32] && fee_bps == 2500,
            Ok(EscrowIx::SetConfig { fee_collector, fee_bps }) => tag == 4 && fee_collector == [5u8; 32] && fee_bps == 2500,
            Ok(EscrowIx::InitTradeConfig { fee_collector, fee_bps }) => {
                tag == 6 && fee_collector == [5u8; 32] && fee_bps == 2500
            }
            Ok(EscrowIx::SetTradeConfig { fee_collector, fee_bps }) => {
                tag == 7 && fee_collector == [5u8; 32] && fee_bps == 2500
            }
            _ => false,
        };
        assert!(ok, "tag {}", tag);
        assert!(matches!(parse_ix(&d[..34]), Err(EscrowError::InvalidInstruction)));
    }
}

#[test]
fn parses_withdraw_requests() {
    let mut d = vec![5u8];
    d.extend_from_slice(&77u64.to_le_bytes());
    assert!(matches!(parse_ix(&d), Ok(EscrowIx::WithdrawFees { amount: 77 })));
    d[0] = 8;
    assert!(matches!(parse_ix(&d), Ok(EscrowIx::WithdrawTradeFees { amount: 77 })));
    assert!(matches!(parse_ix(&d[..8]), Err(EscrowError::InvalidInstruction)));
}

#[test]
fn unknown_or_empty_request_is_refused() {
    assert!(matches!(parse_ix(&[]), Err(EscrowError::InvalidInstruction)));
    assert!(matches!(parse_ix(&[9u8, 0, 0, 0]), Err(EscrowError::InvalidInstruction)));
    assert!(matches!(parse_ix(&[255u8]), Err(EscrowError::InvalidInstruction)));
}

#[test]
fn escrow_record_round_trips() {
    let s = EscrowState {
        v: 3,
        status: 0,
        payment_hash: [1; 32],
        recipient: [2; 32],
        refund: [3; 32],
        refund_after: -1234567,
        mint: [4; 32],
        net_amount: u64::MAX,
        platform_fee_amount: 10_000,
        platform_fee_bps: 100,
        platform_fee_collector: [5; 32],
        trade_fee_amount: 5_000,
        trade_fee_bps: 50,
        trade_fee_collector: [6; 32],
        vault: [7; 32],
        bump: 254,
    };
    let bytes = s.encode();
    assert_eq!(bytes.len(), ESCROW_LEN);
    assert_eq!(bytes.len(), 263);
    assert_eq!(&bytes[98..106], &(-1234567i64).to_le_bytes());
    assert_eq!(&bytes[154..156], &100u16.to_le_bytes());
    assert_eq!(bytes[262], 254);
    let back = EscrowState::decode(&bytes).expect("decodes");
    assert_eq!(back.encode(), bytes);
    assert_eq!(back.refund_after, -1234567);
    assert_eq!(back.net_amount, u64::MAX);
    assert!(EscrowState::decode(&bytes[..262]).is_none());
}

#[test]
fn config_record_round_trips() {
    let c = ConfigState { v: 1, authority: [9; 32], fee_collector: [8; 32], fee_bps: 2500, bump: 251 };
    let bytes = c.encode();
    assert_eq!(bytes.len(), CONFIG_LEN);
    assert_eq!(bytes.len(), 68);
    assert_eq!(&bytes[65..67], &2500u16.to_le_bytes());
    let back = ConfigState::decode(&bytes).expect("decodes");
    assert_eq!(back.fee_bps, 2500);
    assert_eq!(back.authority, [9; 32]);
    assert_eq!(back.bump, 251);
    let mut longer = bytes.clone();
    longer.push(0);
    assert!(ConfigState::decode(&longer).is_none());
}

#[test]
fn error_codes() {
    assert_eq!(EscrowError::InvalidInstruction.custom_code(), Some(1));
    assert_eq!(EscrowError::InvalidPreimage.custom_code(), Some(6));
    assert_eq!(EscrowError::FeeMismatch.custom_code(), Some(17));
    assert_eq!(EscrowError::NotActive.custom_code(), Some(7));
    assert_eq!(EscrowError::TooEarly.custom_code(), Some(8));
    assert_eq!(EscrowError::InvalidTradeFeeVaultAta.custom_code(), Some(16));
    assert_eq!(EscrowError::NotEnoughAccountKeys.custom_code(), None);
    assert_eq!(EscrowError::InvalidAccountData.custom_code(), None);
}
