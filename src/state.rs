use vstd::prelude::*;
use crate::codec::{byte_bound, field, le_value, lemma_byte_bound_8, read_bytes, read_i64_le, read_u16_le, read_u64_le, signed64};

verus! {

/// Layout version of an escrow record.
pub const ESCROW_VERSION: u8 = 3;
/// Layout version of a fee-policy record.
pub const CONFIG_VERSION: u8 = 1;
pub const STATUS_ACTIVE: u8 = 0;
pub const STATUS_CLAIMED: u8 = 1;
pub const STATUS_REFUNDED: u8 = 2;
/// Bytes of an encoded escrow record.
pub const ESCROW_LEN: usize = 263;
/// Bytes of an encoded fee-policy record.
pub const CONFIG_LEN: usize = 68;

/// The persisted state of one escrow, keyed by its payment hash.
#[derive(Debug, Clone, Copy)]
pub struct EscrowState {
    pub v: u8,
    pub status: u8,
    pub payment_hash: [u8; 32],
    pub recipient: [u8; 32],
    pub refund: [u8; 32],
    pub refund_after: i64,
    pub mint: [u8; 32],
    pub net_amount: u64,
    pub platform_fee_amount: u64,
    pub platform_fee_bps: u16,
    pub platform_fee_collector: [u8; 32],
    pub trade_fee_amount: u64,
    pub trade_fee_bps: u16,
    pub trade_fee_collector: [u8; 32],
    pub vault: [u8; 32],
    pub bump: u8,
}

/// The persisted state of a fee policy; the platform policy and each trade
/// policy share this layout.
#[derive(Debug, Clone, Copy)]
pub struct ConfigState {
    pub v: u8,
    pub authority: [u8; 32],
    pub fee_collector: [u8; 32],
    pub fee_bps: u16,
    pub bump: u8,
}

/// The `n` little-endian bytes of `v` (taken modulo `256^n`).
pub open spec fn le_bytes(v: nat, n: nat) -> Seq<u8>
    decreases n,
{
    if n == 0 {
        Seq::empty()
    } else {
        seq![(v % 256) as u8] + le_bytes(v / 256, (n - 1) as nat)
    }
}

/// The 64-bit two's-complement pattern of `x`.
pub open spec fn bits64(x: int) -> nat {
    if x >= 0 {
        x as nat
    } else {
        (x + 0x1_0000_0000_0000_0000) as nat
    }
}

/// The byte layout of an escrow record.
pub open spec fn escrow_bytes(s: EscrowState) -> Seq<u8> {
    seq![s.v, s.status] + s.payment_hash@ + s.recipient@ + s.refund@ + le_bytes(bits64(s.refund_after as int), 8)
        + s.mint@ + le_bytes(s.net_amount as nat, 8) + le_bytes(s.platform_fee_amount as nat, 8)
        + le_bytes(s.platform_fee_bps as nat, 2) + s.platform_fee_collector@ + le_bytes(
        s.trade_fee_amount as nat,
        8,
    ) + le_bytes(s.trade_fee_bps as nat, 2) + s.trade_fee_collector@ + s.vault@ + seq![s.bump]
}

/// The byte layout of a fee-policy record.
pub open spec fn config_bytes(c: ConfigState) -> Seq<u8> {
    seq![c.v] + c.authority@ + c.fee_collector@ + le_bytes(c.fee_bps as nat, 2) + seq![c.bump]
}

/// `s` is what the escrow record bytes `b` hold.
pub open spec fn escrow_decoded_as(b: Seq<u8>, s: EscrowState) -> bool {
    &&& b.len() == ESCROW_LEN
    &&& s.v == b[0]
    &&& s.status == b[1]
    &&& s.payment_hash@ == field(b, 2, 32)
    &&& s.recipient@ == field(b, 34, 32)
    &&& s.refund@ == field(b, 66, 32)
    &&& s.refund_after as int == signed64(le_value(field(b, 98, 8)))
    &&& s.mint@ == field(b, 106, 32)
    &&& s.net_amount as nat == le_value(field(b, 138, 8))
    &&& s.platform_fee_amount as nat == le_value(field(b, 146, 8))
    &&& s.platform_fee_bps as nat == le_value(field(b, 154, 2))
    &&& s.platform_fee_collector@ == field(b, 156, 32)
    &&& s.trade_fee_amount as nat == le_value(field(b, 188, 8))
    &&& s.trade_fee_bps as nat == le_value(field(b, 196, 2))
    &&& s.trade_fee_collector@ == field(b, 198, 32)
    &&& s.vault@ == field(b, 230, 32)
    &&& s.bump == b[262]
}

/// `c` is what the fee-policy record bytes `b` hold.
pub open spec fn config_decoded_as(b: Seq<u8>, c: ConfigState) -> bool {
    &&& b.len() == CONFIG_LEN
    &&& c.v == b[0]
    &&& c.authority@ == field(b, 1, 32)
    &&& c.fee_collector@ == field(b, 33, 32)
    &&& c.fee_bps as nat == le_value(field(b, 65, 2))
    &&& c.bump == b[67]
}

/// The escrow record that the bytes `b` hold.
pub open spec fn escrow_of(b: Seq<u8>) -> EscrowState {
    choose|s: EscrowState| escrow_decoded_as(b, s)
}

/// The fee-policy record that the bytes `b` hold.
pub open spec fn config_of(b: Seq<u8>) -> ConfigState {
    choose|c: ConfigState| config_decoded_as(b, c)
}

/// Bytes hold at most one escrow record.
pub proof fn lemma_escrow_decoded_unique(b: Seq<u8>, s: EscrowState)
    requires
        escrow_decoded_as(b, s),
    ensures
        escrow_of(b) == s,
{
    let t = escrow_of(b);
    assert(escrow_decoded_as(b, t));
    assert(t.payment_hash =~= s.payment_hash);
    assert(t.recipient =~= s.recipient);
    assert(t.refund =~= s.refund);
    assert(t.mint =~= s.mint);
    assert(t.platform_fee_collector =~= s.platform_fee_collector);
    assert(t.trade_fee_collector =~= s.trade_fee_collector);
    assert(t.vault =~= s.vault);
}

/// Bytes hold at most one fee-policy record.
pub proof fn lemma_config_decoded_unique(b: Seq<u8>, c: ConfigState)
    requires
        config_decoded_as(b, c),
    ensures
        config_of(b) == c,
{
    let t = config_of(b);
    assert(config_decoded_as(b, t));
    assert(t.authority =~= c.authority);
    assert(t.fee_collector =~= c.fee_collector);
}

pub proof fn lemma_le_bytes_len(v: nat, n: nat)
    ensures
        le_bytes(v, n).len() == n,
    decreases n,
{
    if n > 0 {
        lemma_le_bytes_len(v / 256, (n - 1) as nat);
    }
}

/// Reading back `n` little-endian bytes gives the value they were written from.
pub proof fn lemma_le_round_trip(v: nat, n: nat)
    requires
        v < byte_bound(n),
    ensures
        le_value(le_bytes(v, n)) == v,
    decreases n,
{
    if n > 0 {
        let b = le_bytes(v, n);
        lemma_le_bytes_len(v, n);
        lemma_le_round_trip(v / 256, (n - 1) as nat);
        assert(b.subrange(1, b.len() as int) =~= le_bytes(v / 256, (n - 1) as nat));
    }
}

/// An encoded escrow record decodes to itself.
pub proof fn lemma_escrow_round_trip(s: EscrowState)
    ensures
        escrow_of(escrow_bytes(s)) == s,
{
    let b = escrow_bytes(s);
    lemma_byte_bound_8();
    reveal_with_fuel(byte_bound, 3);
    lemma_le_bytes_len(bits64(s.refund_after as int), 8);
    lemma_le_bytes_len(s.net_amount as nat, 8);
    lemma_le_bytes_len(s.platform_fee_amount as nat, 8);
    lemma_le_bytes_len(s.platform_fee_bps as nat, 2);
    lemma_le_bytes_len(s.trade_fee_amount as nat, 8);
    lemma_le_bytes_len(s.trade_fee_bps as nat, 2);
    lemma_le_round_trip(bits64(s.refund_after as int), 8);
    lemma_le_round_trip(s.net_amount as nat, 8);
    lemma_le_round_trip(s.platform_fee_amount as nat, 8);
    lemma_le_round_trip(s.platform_fee_bps as nat, 2);
    lemma_le_round_trip(s.trade_fee_amount as nat, 8);
    lemma_le_round_trip(s.trade_fee_bps as nat, 2);
    assert(field(b, 2, 32) =~= s.payment_hash@);
    assert(field(b, 34, 32) =~= s.recipient@);
    assert(field(b, 66, 32) =~= s.refund@);
    assert(field(b, 98, 8) =~= le_bytes(bits64(s.refund_after as int), 8));
    assert(field(b, 106, 32) =~= s.mint@);
    assert(field(b, 138, 8) =~= le_bytes(s.net_amount as nat, 8));
    assert(field(b, 146, 8) =~= le_bytes(s.platform_fee_amount as nat, 8));
    assert(field(b, 154, 2) =~= le_bytes(s.platform_fee_bps as nat, 2));
    assert(field(b, 156, 32) =~= s.platform_fee_collector@);
    assert(field(b, 188, 8) =~= le_bytes(s.trade_fee_amount as nat, 8));
    assert(field(b, 196, 2) =~= le_bytes(s.trade_fee_bps as nat, 2));
    assert(field(b, 198, 32) =~= s.trade_fee_collector@);
    assert(field(b, 230, 32) =~= s.vault@);
    assert(escrow_decoded_as(b, s));
    lemma_escrow_decoded_unique(b, s);
}

/// Every escrow record encodes to one record's length.
pub proof fn lemma_escrow_length(s: EscrowState)
    ensures
        escrow_bytes(s).len() == ESCROW_LEN,
{
    lemma_le_bytes_len(bits64(s.refund_after as int), 8);
    lemma_le_bytes_len(s.net_amount as nat, 8);
    lemma_le_bytes_len(s.platform_fee_amount as nat, 8);
    lemma_le_bytes_len(s.platform_fee_bps as nat, 2);
    lemma_le_bytes_len(s.trade_fee_amount as nat, 8);
    lemma_le_bytes_len(s.trade_fee_bps as nat, 2);
}

/// An encoded fee-policy record decodes to itself.
pub proof fn lemma_config_round_trip(c: ConfigState)
    ensures
        config_of(config_bytes(c)) == c,
{
    let b = config_bytes(c);
    reveal_with_fuel(byte_bound, 3);
    lemma_le_bytes_len(c.fee_bps as nat, 2);
    lemma_le_round_trip(c.fee_bps as nat, 2);
    assert(field(b, 1, 32) =~= c.authority@);
    assert(field(b, 33, 32) =~= c.fee_collector@);
    assert(field(b, 65, 2) =~= le_bytes(c.fee_bps as nat, 2));
    assert(config_decoded_as(b, c));
    lemma_config_decoded_unique(b, c);
}

/// Appends the `n` low little-endian bytes of `v`.
fn push_le(out: &mut Vec<u8>, v: u64, n: usize)
    ensures
        final(out)@ == old(out)@ + le_bytes(v as nat, n as nat),
{
    let ghost start = old(out)@;
    let mut x: u64 = v;
    let mut i: usize = 0;
    while i < n
        invariant
            i <= n,
            out@ + le_bytes(x as nat, (n - i) as nat) == start + le_bytes(v as nat, n as nat),
        decreases n - i,
    {
        let ghost before = out@;
        out.push((x % 256) as u8);
        proof {
            assert(le_bytes(x as nat, (n - i) as nat) == seq![(x % 256) as u8] + le_bytes(
                (x / 256) as nat,
                (n - i - 1) as nat,
            ));
            assert(out@ + le_bytes((x / 256) as nat, (n - i - 1) as nat) =~= before + le_bytes(
                x as nat,
                (n - i) as nat,
            ));
        }
        x = x / 256;
        i = i + 1;
    }
    assert(out@ =~= out@ + le_bytes(x as nat, 0));
}

/// Appends the 32 bytes of a key.
fn push_key(out: &mut Vec<u8>, k: &[u8; 32])
    ensures
        final(out)@ == old(out)@ + k@,
{
    let ghost start = old(out)@;
    let mut i: usize = 0;
    while i < 32
        invariant
            i <= 32,
            k@.len() == 32,
            out@ == start + k@.subrange(0, i as int),
        decreases 32 - i,
    {
        out.push(k[i]);
        assert(out@ =~= start + k@.subrange(0, i + 1));
        i = i + 1;
    }
    assert(k@.subrange(0, 32) =~= k@);
}

/// The two's-complement bit pattern of an `i64`, as a `u64`.
fn i64_bits(x: i64) -> (r: u64)
    ensures
        r as nat == bits64(x as int),
{
    if x >= 0 {
        x as u64
    } else {
        let below: i64 = -(x + 1);
        0xffff_ffff_ffff_ffff - below as u64
    }
}

impl EscrowState {
    pub open spec fn is_active(&self) -> bool {
        self.status == STATUS_ACTIVE
    }

    /// The record's bytes, as persisted.
    pub fn encode(&self) -> (r: Vec<u8>)
        ensures
            r@ == escrow_bytes(*self),
    {
        let mut out: Vec<u8> = Vec::new();
        out.push(self.v);
        out.push(self.status);
        push_key(&mut out, &self.payment_hash);
        push_key(&mut out, &self.recipient);
        push_key(&mut out, &self.refund);
        push_le(&mut out, i64_bits(self.refund_after), 8);
        push_key(&mut out, &self.mint);
        push_le(&mut out, self.net_amount, 8);
        push_le(&mut out, self.platform_fee_amount, 8);
        push_le(&mut out, self.platform_fee_bps as u64, 2);
        push_key(&mut out, &self.platform_fee_collector);
        push_le(&mut out, self.trade_fee_amount, 8);
        push_le(&mut out, self.trade_fee_bps as u64, 2);
        push_key(&mut out, &self.trade_fee_collector);
        push_key(&mut out, &self.vault);
        out.push(self.bump);
        assert(out@ =~= escrow_bytes(*self));
        out
    }

    /// Reads a record; `None` unless `data` is exactly one record long.
    pub fn decode(data: &[u8]) -> (r: Option<EscrowState>)
        ensures
            r is Some <==> data@.len() == ESCROW_LEN,
            r is Some ==> escrow_decoded_as(data@, r->Some_0) && r->Some_0 == escrow_of(data@),
    {
        if data.len() != ESCROW_LEN {
            return None;
        }
        let mut pos: usize = 2;
        let payment_hash = read_bytes::<32>(data, &mut pos).ok()?;
        let recipient = read_bytes::<32>(data, &mut pos).ok()?;
        let refund = read_bytes::<32>(data, &mut pos).ok()?;
        let refund_after = read_i64_le(data, &mut pos).ok()?;
        let mint = read_bytes::<32>(data, &mut pos).ok()?;
        let net_amount = read_u64_le(data, &mut pos).ok()?;
        let platform_fee_amount = read_u64_le(data, &mut pos).ok()?;
        let platform_fee_bps = read_u16_le(data, &mut pos).ok()?;
        let platform_fee_collector = read_bytes::<32>(data, &mut pos).ok()?;
        let trade_fee_amount = read_u64_le(data, &mut pos).ok()?;
        let trade_fee_bps = read_u16_le(data, &mut pos).ok()?;
        let trade_fee_collector = read_bytes::<32>(data, &mut pos).ok()?;
        let vault = read_bytes::<32>(data, &mut pos).ok()?;
        let s = EscrowState {
                v: data[0],
                status: data[1],
                payment_hash,
                recipient,
                refund,
                refund_after,
                mint,
                net_amount,
                platform_fee_amount,
                platform_fee_bps,
                platform_fee_collector,
                trade_fee_amount,
                trade_fee_bps,
                trade_fee_collector,
                vault,
                bump: data[262],
            };
        proof {
            lemma_escrow_decoded_unique(data@, s);
        }
        Some(s)
    }
}

impl ConfigState {
    /// The record's bytes, as persisted.
    pub fn encode(&self) -> (r: Vec<u8>)
        ensures
            r@ == config_bytes(*self),
    {
        let mut out: Vec<u8> = Vec::new();
        out.push(self.v);
        push_key(&mut out, &self.authority);
        push_key(&mut out, &self.fee_collector);
        push_le(&mut out, self.fee_bps as u64, 2);
        out.push(self.bump);
        assert(out@ =~= config_bytes(*self));
        out
    }

    /// Reads a record; `None` unless `data` is exactly one record long.
    pub fn decode(data: &[u8]) -> (r: Option<ConfigState>)
        ensures
            r is Some <==> data@.len() == CONFIG_LEN,
            r is Some ==> config_decoded_as(data@, r->Some_0) && r->Some_0 == config_of(data@),
    {
        if data.len() != CONFIG_LEN {
            return None;
        }
        let mut pos: usize = 1;
        let authority = read_bytes::<32>(data, &mut pos).ok()?;
        let fee_collector = read_bytes::<32>(data, &mut pos).ok()?;
        let fee_bps = read_u16_le(data, &mut pos).ok()?;
        let c = ConfigState { v: data[0], authority, fee_collector, fee_bps, bump: data[67] };
        proof {
            lemma_config_decoded_unique(data@, c);
        }
        Some(c)
    }
}

} // verus!
