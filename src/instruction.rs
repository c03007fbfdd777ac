use vstd::prelude::*;
use crate::codec::{field, le_value, read_bytes, read_i64_le, read_u16_le, read_u64_le, signed64};
use crate::error::EscrowError;

verus! {

/// One decoded request.
pub enum EscrowIx {
    Init {
        payment_hash: [u8; 32],
        recipient: [u8; 32],
        refund: [u8; 32],
        refund_after: i64,
        amount: u64,
        expected_platform_fee_bps: u16,
        expected_trade_fee_bps: u16,
        trade_fee_collector: [u8; 32],
    },
    Claim { preimage: [u8; 32] },
    Refund,
    InitConfig { fee_collector: [u8; 32], fee_bps: u16 },
    SetConfig { fee_collector: [u8; 32], fee_bps: u16 },
    WithdrawFees { amount: u64 },
    InitTradeConfig { fee_collector: [u8; 32], fee_bps: u16 },
    SetTradeConfig { fee_collector: [u8; 32], fee_bps: u16 },
    WithdrawTradeFees { amount: u64 },
}

/// How many bytes follow the tag byte for each known tag.
pub open spec fn body_len(tag: u8) -> int {
    if tag == 0 {
        148
    } else if tag == 1 {
        32
    } else if tag == 2 {
        0
    } else if tag == 5 || tag == 8 {
        8
    } else {
        34
    }
}

/// A buffer decodes when its tag is known and it holds that tag's fields;
/// bytes after them are ignored.
pub open spec fn decodes(s: Seq<u8>) -> bool {
    s.len() >= 1 && s[0] <= 8 && s.len() >= 1 + body_len(s[0])
}

/// A collector and rate at the start of a body: 32 bytes, then a `u16`.
pub open spec fn policy_fields(s: Seq<u8>, fee_collector: [u8; 32], fee_bps: u16) -> bool {
    fee_collector@ == field(s, 1, 32) && fee_bps as nat == le_value(field(s, 33, 2))
}

/// `ix` is what the bytes `s` say.
pub open spec fn decoded_as(s: Seq<u8>, ix: EscrowIx) -> bool {
    match ix {
        EscrowIx::Init {
            payment_hash,
            recipient,
            refund,
            refund_after,
            amount,
            expected_platform_fee_bps,
            expected_trade_fee_bps,
            trade_fee_collector,
        } => s[0] == 0 && payment_hash@ == field(s, 1, 32) && recipient@ == field(s, 33, 32)
            && refund@ == field(s, 65, 32) && refund_after as int == signed64(le_value(field(s, 97, 8)))
            && amount as nat == le_value(field(s, 105, 8))
            && expected_platform_fee_bps as nat == le_value(field(s, 113, 2))
            && expected_trade_fee_bps as nat == le_value(field(s, 115, 2))
            && trade_fee_collector@ == field(s, 117, 32),
        EscrowIx::Claim { preimage } => s[0] == 1 && preimage@ == field(s, 1, 32),
        EscrowIx::Refund => s[0] == 2,
        EscrowIx::InitConfig { fee_collector, fee_bps } => s[0] == 3 && policy_fields(s, fee_collector, fee_bps),
        EscrowIx::SetConfig { fee_collector, fee_bps } => s[0] == 4 && policy_fields(s, fee_collector, fee_bps),
        EscrowIx::WithdrawFees { amount } => s[0] == 5 && amount as nat == le_value(field(s, 1, 8)),
        EscrowIx::InitTradeConfig { fee_collector, fee_bps } => s[0] == 6 && policy_fields(s, fee_collector, fee_bps),
        EscrowIx::SetTradeConfig { fee_collector, fee_bps } => s[0] == 7 && policy_fields(s, fee_collector, fee_bps),
        EscrowIx::WithdrawTradeFees { amount } => s[0] == 8 && amount as nat == le_value(field(s, 1, 8)),
    }
}

fn parse_policy_fields(input: &[u8], pos: &mut usize) -> (r: Result<([u8; 32], u16), EscrowError>)
    requires
        *old(pos) == 1,
        1 <= input@.len(),
    ensures
        input@.len() >= 35 ==> r is Ok && policy_fields(input@, r->Ok_0.0, r->Ok_0.1),
        input@.len() < 35 ==> r == Err::<([u8; 32], u16), EscrowError>(EscrowError::InvalidInstruction),
{
    let fee_collector = read_bytes::<32>(input, pos)?;
    let fee_bps = read_u16_le(input, pos)?;
    Ok((fee_collector, fee_bps))
}

/// Decodes a request: a tag byte, then that tag's fixed little-endian fields.
pub fn parse_ix(input: &[u8]) -> (r: Result<EscrowIx, EscrowError>)
    ensures
        r is Ok <==> decodes(input@),
        r is Ok ==> decoded_as(input@, r->Ok_0),
        r is Err ==> r->Err_0 == EscrowError::InvalidInstruction,
{
    if input.len() == 0 {
        return Err(EscrowError::InvalidInstruction);
    }
    let tag = input[0];
    let mut pos: usize = 1;
    match tag {
        0 => {
            let payment_hash = read_bytes::<32>(input, &mut pos)?;
            let recipient = read_bytes::<32>(input, &mut pos)?;
            let refund = read_bytes::<32>(input, &mut pos)?;
            let refund_after = read_i64_le(input, &mut pos)?;
            let amount = read_u64_le(input, &mut pos)?;
            let expected_platform_fee_bps = read_u16_le(input, &mut pos)?;
            let expected_trade_fee_bps = read_u16_le(input, &mut pos)?;
            let trade_fee_collector = read_bytes::<32>(input, &mut pos)?;
            Ok(
                EscrowIx::Init {
                    payment_hash,
                    recipient,
                    refund,
                    refund_after,
                    amount,
                    expected_platform_fee_bps,
                    expected_trade_fee_bps,
                    trade_fee_collector,
                },
            )
        },
        1 => {
            let preimage = read_bytes::<32>(input, &mut pos)?;
            Ok(EscrowIx::Claim { preimage })
        },
        2 => Ok(EscrowIx::Refund),
        3 => {
            let (fee_collector, fee_bps) = parse_policy_fields(input, &mut pos)?;
            Ok(EscrowIx::InitConfig { fee_collector, fee_bps })
        },
        4 => {
            let (fee_collector, fee_bps) = parse_policy_fields(input, &mut pos)?;
            Ok(EscrowIx::SetConfig { fee_collector, fee_bps })
        },
        5 => {
            let amount = read_u64_le(input, &mut pos)?;
            Ok(EscrowIx::WithdrawFees { amount })
        },
        6 => {
            let (fee_collector, fee_bps) = parse_policy_fields(input, &mut pos)?;
            Ok(EscrowIx::InitTradeConfig { fee_collector, fee_bps })
        },
        7 => {
            let (fee_collector, fee_bps) = parse_policy_fields(input, &mut pos)?;
            Ok(EscrowIx::SetTradeConfig { fee_collector, fee_bps })
        },
        8 => {
            let amount = read_u64_le(input, &mut pos)?;
            Ok(EscrowIx::WithdrawTradeFees { amount })
        },
        _ => Err(EscrowError::InvalidInstruction),
    }
}

} // verus!
