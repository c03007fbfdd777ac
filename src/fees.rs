use vstd::prelude::*;

verus! {

/// The fee on `amount` at `bps` basis points, rounded down.
pub open spec fn fee_of(amount: nat, bps: nat) -> nat {
    amount * bps / 10000
}

/// How a deposit of `amount` is made up: the recipient's net amount, the two
/// fees on top of it, and what is drawn from the depositor in all.
#[derive(Debug, Clone, Copy, PartialEq, Eq, Structural)]
pub struct DepositSplit {
    pub net_amount: u64,
    pub platform_fee_amount: u64,
    pub trade_fee_amount: u64,
    pub total_amount: u64,
}

/// `floor(amount * bps / 10000)`, computed in 128 bits.
pub fn fee_amount(amount: u64, bps: u16) -> (r: u64)
    requires
        bps <= 10000,
    ensures
        r as nat == fee_of(amount as nat, bps as nat),
        r <= amount,
{
    let wide: u128 = amount as u128;
    proof {
        assert(wide * (bps as u128) <= 0xffff_ffff_ffff_ffff * 10000) by (nonlinear_arith)
            requires
                wide <= 0xffff_ffff_ffff_ffff,
                bps <= 10000,
        ;
        assert((amount as nat) * (bps as nat) / 10000 <= amount as nat) by (nonlinear_arith)
            requires
                bps <= 10000,
        ;
    }
    let f: u128 = wide * (bps as u128) / 10000;
    f as u64
}

/// Splits a deposit at the two rates. `None` when what the depositor owes in
/// all does not fit in a `u64`.
pub fn split_deposit(amount: u64, platform_fee_bps: u16, trade_fee_bps: u16) -> (r: Option<DepositSplit>)
    requires
        platform_fee_bps <= 10000,
        trade_fee_bps <= 10000,
    ensures
        r is None <==> amount + fee_of(amount as nat, platform_fee_bps as nat) + fee_of(
            amount as nat,
            trade_fee_bps as nat,
        ) > u64::MAX,
        r is Some ==> {
            let s = r->Some_0;
            &&& s.net_amount == amount
            &&& s.platform_fee_amount as nat == fee_of(amount as nat, platform_fee_bps as nat)
            &&& s.trade_fee_amount as nat == fee_of(amount as nat, trade_fee_bps as nat)
            &&& s.total_amount == s.net_amount + s.platform_fee_amount + s.trade_fee_amount
        },
{
    let platform_fee_amount = fee_amount(amount, platform_fee_bps);
    let trade_fee_amount = fee_amount(amount, trade_fee_bps);
    let with_platform = amount.checked_add(platform_fee_amount)?;
    let total_amount = with_platform.checked_add(trade_fee_amount)?;
    Some(DepositSplit { net_amount: amount, platform_fee_amount, trade_fee_amount, total_amount })
}

/// A fee at a rate of at most 100% is at most the amount.
pub proof fn lemma_fee_at_most_amount(amount: nat, bps: nat)
    requires
        bps <= 10000,
    ensures
        fee_of(amount, bps) <= amount,
{
    assert(amount * bps / 10000 <= amount) by (nonlinear_arith)
        requires
            bps <= 10000,
    ;
}

} // verus!
