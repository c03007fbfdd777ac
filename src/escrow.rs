//! The escrow lifecycle: create, claim with the preimage, or refund after
//! the deadline. Each handler checks a request against the accounts it names
//! and returns what the host must then carry out, or the first failure.
use vstd::prelude::*;
use crate::accounts::{assert_signer, assert_writable, data_is_empty, AccountView};
use crate::address::{
    config_pda, config_seeds, escrow_seeds, is_associated_account, pda_for_hash, same_key, trade_config_pda,
    trade_config_seeds,
};
use crate::error::EscrowError;
use crate::host::{
    associated_address_of, hash_of, program_address_of, sha256, token_account_of,
    unpack_token_account,
};
use crate::fees::{fee_of, lemma_fee_at_most_amount, split_deposit};
use crate::state::{
    config_of, escrow_bytes, escrow_of, lemma_escrow_length, lemma_escrow_round_trip, ConfigState, EscrowState, CONFIG_LEN, CONFIG_VERSION, ESCROW_LEN, ESCROW_VERSION, STATUS_ACTIVE,
    STATUS_CLAIMED, STATUS_REFUNDED,
};
use crate::MAX_FEE_BPS;

verus! {

/// A successful claim: the record to persist and the three transfers out of
/// the vault (to the recipient, the platform fee vault, the trade fee vault;
/// a zero fee is not sent).
#[derive(Debug, Clone, Copy)]
pub struct ClaimPlan {
    pub state: EscrowState,
    pub net_amount: u64,
    pub platform_fee_amount: u64,
    pub trade_fee_amount: u64,
}

/// A successful refund: the record to persist and the one transfer of
/// everything in the vault back to the refund party.
#[derive(Debug, Clone, Copy)]
pub struct RefundPlan {
    pub state: EscrowState,
    pub total_amount: u64,
}

/// The record after a terminal transition: the new status, all amounts zero.
pub open spec fn settled(s: EscrowState, status: u8) -> EscrowState {
    EscrowState { status, net_amount: 0, platform_fee_amount: 0, trade_fee_amount: 0, ..s }
}

/// The token account in `data` exists, is of `mint` and belongs to `owner`.
pub open spec fn token_account_ok(data: Seq<u8>, mint: Seq<u8>, owner: Seq<u8>) -> bool {
    &&& token_account_of(data) is Some
    &&& token_account_of(data)->Some_0.0 == mint
    &&& token_account_of(data)->Some_0.1 == owner
}

/// The token account in `data` exists and is of `mint`.
pub open spec fn token_mint_ok(data: Seq<u8>, mint: Seq<u8>) -> bool {
    token_account_of(data) is Some && token_account_of(data)->Some_0.0 == mint
}

/// Fails with `NotActive` unless the escrow is still active.
pub fn require_active(state: &EscrowState) -> (r: Result<(), EscrowError>)
    ensures
        r is Ok <==> state.status == STATUS_ACTIVE,
        r is Err ==> r->Err_0 == EscrowError::NotActive,
{
    if state.status != STATUS_ACTIVE {
        return Err(EscrowError::NotActive);
    }
    Ok(())
}

/// Reads a token account and checks its mint.
fn token_of_mint(ai: &AccountView, mint: &[u8; 32]) -> (r: Result<crate::host::TokenAccount, EscrowError>)
    ensures
        r is Ok <==> token_mint_ok(ai.data@, mint@),
        r is Ok ==> token_account_of(ai.data@) == Some((r->Ok_0.mint@, r->Ok_0.owner@, r->Ok_0.amount)),
        r is Err ==> r->Err_0 == EscrowError::InvalidTokenAccount,
{
    match unpack_token_account(ai.data.as_slice()) {
        Some(t) => {
            if !same_key(&t.mint, mint) {
                return Err(EscrowError::InvalidTokenAccount);
            }
            Ok(t)
        },
        None => Err(EscrowError::InvalidTokenAccount),
    }
}

/// Checks that a token account exists, is of `mint` and belongs to `owner`.
fn check_token_account(ai: &AccountView, mint: &[u8; 32], owner: &[u8; 32]) -> (r: Result<(), EscrowError>)
    ensures
        r is Ok <==> token_account_ok(ai.data@, mint@, owner@),
        r is Err ==> r->Err_0 == EscrowError::InvalidTokenAccount,
{
    let t = token_of_mint(ai, mint)?;
    if !same_key(&t.owner, owner) {
        return Err(EscrowError::InvalidTokenAccount);
    }
    Ok(())
}

/// The escrow's own address check fails: the address derived from its payment
/// hash is not `escrow_key`, or its bump is not the recorded one.
pub open spec fn escrow_address_error(program_id: Seq<u8>, escrow_key: Seq<u8>, s: EscrowState) -> bool {
    let pda = program_address_of(escrow_seeds(s.payment_hash@), program_id);
    pda is None || pda->Some_0.0 != escrow_key || pda->Some_0.1 != s.bump
}

fn check_escrow_address(program_id: &[u8; 32], escrow: &AccountView, s: &EscrowState) -> (r: Result<[u8; 32], EscrowError>)
    ensures
        r is Ok <==> !escrow_address_error(program_id@, escrow.key@, *s),
        r is Ok ==> r->Ok_0@ == escrow.key@,
        r is Err ==> r->Err_0 == EscrowError::InvalidEscrowPda,
{
    match pda_for_hash(program_id, &s.payment_hash) {
        Some((expected, bump)) => {
            if !same_key(&expected, &escrow.key) || bump != s.bump {
                return Err(EscrowError::InvalidEscrowPda);
            }
            Ok(expected)
        },
        None => Err(EscrowError::InvalidEscrowPda),
    }
}

/// The fee vaults that a claim pays into must be the associated accounts, for
/// the escrow's mint, of the policies of the collectors recorded at creation.
pub open spec fn claim_fee_vaults_error(program_id: Seq<u8>, pv: AccountView, tv: AccountView, s: EscrowState) -> Option<EscrowError> {
    let cfg = program_address_of(config_seeds(), program_id);
    let tcfg = program_address_of(trade_config_seeds(s.trade_fee_collector@), program_id);
    if cfg is None {
        Some(EscrowError::InvalidConfigPda)
    } else if associated_address_of(cfg->Some_0.0, s.mint@) != Some(pv.key@) {
        Some(EscrowError::InvalidFeeVaultAta)
    } else if !token_account_ok(pv.data@, s.mint@, cfg->Some_0.0) {
        Some(EscrowError::InvalidTokenAccount)
    } else if tcfg is None {
        Some(EscrowError::InvalidTradeConfigPda)
    } else if associated_address_of(tcfg->Some_0.0, s.mint@) != Some(tv.key@) {
        Some(EscrowError::InvalidTradeFeeVaultAta)
    } else if !token_account_ok(tv.data@, s.mint@, tcfg->Some_0.0) {
        Some(EscrowError::InvalidTokenAccount)
    } else {
        None
    }
}

fn check_claim_fee_vaults(program_id: &[u8; 32], pv: &AccountView, tv: &AccountView, s: &EscrowState) -> (r: Result<(), EscrowError>)
    ensures
        r is Ok <==> claim_fee_vaults_error(program_id@, *pv, *tv, *s) is None,
        r is Err ==> claim_fee_vaults_error(program_id@, *pv, *tv, *s) == Some(r->Err_0),
{
    let cfg = match config_pda(program_id) {
        Some((k, _)) => k,
        None => return Err(EscrowError::InvalidConfigPda),
    };
    if !is_associated_account(&cfg, &s.mint, &pv.key) {
        return Err(EscrowError::InvalidFeeVaultAta);
    }
    check_token_account(pv, &s.mint, &cfg)?;
    let tcfg = match trade_config_pda(program_id, &s.trade_fee_collector) {
        Some((k, _)) => k,
        None => return Err(EscrowError::InvalidTradeConfigPda),
    };
    if !is_associated_account(&tcfg, &s.mint, &tv.key) {
        return Err(EscrowError::InvalidTradeFeeVaultAta);
    }
    check_token_account(tv, &s.mint, &tcfg)?;
    Ok(())
}

/// Whether a claim on record `s` is authorized: the record is active, the
/// signer is its recipient, the vault is its vault, and the preimage's hash
/// is its payment hash.
pub open spec fn claim_authorization(s: EscrowState, signer: Seq<u8>, vault: Seq<u8>, preimage_hash: Seq<u8>) -> Result<(), EscrowError> {
    if s.status != STATUS_ACTIVE {
        Err(EscrowError::NotActive)
    } else if s.recipient@ != signer {
        Err(EscrowError::InvalidSigner)
    } else if s.vault@ != vault {
        Err(EscrowError::InvalidVaultAta)
    } else if preimage_hash != s.payment_hash@ {
        Err(EscrowError::InvalidPreimage)
    } else {
        Ok(())
    }
}

/// Decides whether a claim on `state` is authorized, given the hash of the
/// supplied preimage.
pub fn authorize_claim(state: &EscrowState, signer: &[u8; 32], vault: &[u8; 32], preimage_hash: &[u8; 32]) -> (r: Result<(), EscrowError>)
    ensures
        r == claim_authorization(*state, signer@, vault@, preimage_hash@),
{
    require_active(state)?;
    if !same_key(&state.recipient, signer) {
        return Err(EscrowError::InvalidSigner);
    }
    if !same_key(&state.vault, vault) {
        return Err(EscrowError::InvalidVaultAta);
    }
    if !same_key(preimage_hash, &state.payment_hash) {
        return Err(EscrowError::InvalidPreimage);
    }
    Ok(())
}

/// The outcome of a claim on record `s`, once the accounts are present,
/// signed and writable.
pub open spec fn claim_with(program_id: Seq<u8>, a: Seq<AccountView>, preimage: Seq<u8>, s: EscrowState) -> Result<ClaimPlan, EscrowError> {
    let auth = claim_authorization(s, a[0].key@, a[2].key@, hash_of(preimage));
    if auth is Err {
        Err(auth->Err_0)
    } else if !token_mint_ok(a[2].data@, s.mint@) || !token_account_ok(a[3].data@, s.mint@, a[0].key@) {
        Err(EscrowError::InvalidTokenAccount)
    } else if escrow_address_error(program_id, a[1].key@, s) {
        Err(EscrowError::InvalidEscrowPda)
    } else if token_account_of(a[2].data@)->Some_0.1 != a[1].key@ {
        Err(EscrowError::InvalidTokenAccount)
    } else if claim_fee_vaults_error(program_id, a[4], a[5], s) is Some {
        Err(claim_fee_vaults_error(program_id, a[4], a[5], s)->Some_0)
    } else {
        Ok(
            ClaimPlan {
                state: settled(s, STATUS_CLAIMED),
                net_amount: s.net_amount,
                platform_fee_amount: s.platform_fee_amount,
                trade_fee_amount: s.trade_fee_amount,
            },
        )
    }
}

/// The outcome of a claim request. Accounts: recipient (signer), escrow
/// record, vault, recipient token account, platform fee vault, trade fee
/// vault, token program.
pub open spec fn claim_outcome(program_id: Seq<u8>, a: Seq<AccountView>, preimage: Seq<u8>) -> Result<ClaimPlan, EscrowError> {
    if a.len() < 7 {
        Err(EscrowError::NotEnoughAccountKeys)
    } else if !a[0].is_signer {
        Err(EscrowError::InvalidSigner)
    } else if !(a[1].is_writable && a[2].is_writable && a[3].is_writable && a[4].is_writable
        && a[5].is_writable) {
        Err(EscrowError::InvalidAccountData)
    } else if a[1].data@.len() != ESCROW_LEN {
        Err(EscrowError::InvalidAccountData)
    } else {
        claim_with(program_id, a, preimage, escrow_of(a[1].data@))
    }
}

/// Checks a claim: the recipient shows the preimage of the payment hash and
/// receives the net amount, while the fees go to the fee vaults of the
/// policies recorded when the escrow was created.
pub fn process_claim(program_id: &[u8; 32], accounts: &[AccountView], preimage: &[u8; 32]) -> (r: Result<ClaimPlan, EscrowError>)
    ensures
        r == claim_outcome(program_id@, accounts@, preimage@),
{
    if accounts.len() < 7 {
        return Err(EscrowError::NotEnoughAccountKeys);
    }
    let recipient = &accounts[0];
    let escrow = &accounts[1];
    let vault = &accounts[2];
    let recipient_token = &accounts[3];
    assert_signer(recipient)?;
    assert_writable(escrow)?;
    assert_writable(vault)?;
    assert_writable(recipient_token)?;
    assert_writable(&accounts[4])?;
    assert_writable(&accounts[5])?;
    let state = match EscrowState::decode(escrow.data.as_slice()) {
        Some(s) => s,
        None => return Err(EscrowError::InvalidAccountData),
    };
    let preimage_hash = sha256(preimage.as_slice());
    authorize_claim(&state, &recipient.key, &vault.key, &preimage_hash)?;
    let vault_state = token_of_mint(vault, &state.mint)?;
    check_token_account(recipient_token, &state.mint, &recipient.key)?;
    let expected_escrow = check_escrow_address(program_id, escrow, &state)?;
    if !same_key(&vault_state.owner, &expected_escrow) {
        return Err(EscrowError::InvalidTokenAccount);
    }
    check_claim_fee_vaults(program_id, &accounts[4], &accounts[5], &state)?;
    let net_amount = state.net_amount;
    let platform_fee_amount = state.platform_fee_amount;
    let trade_fee_amount = state.trade_fee_amount;
    let settled_state = EscrowState {
        status: STATUS_CLAIMED,
        net_amount: 0,
        platform_fee_amount: 0,
        trade_fee_amount: 0,
        ..state
    };
    Ok(ClaimPlan { state: settled_state, net_amount, platform_fee_amount, trade_fee_amount })
}

/// Whether a refund of record `s` is authorized at time `now`: the record is
/// active, the signer is its refund party, the vault is its vault, and the
/// refund time has come.
pub open spec fn refund_authorization(s: EscrowState, signer: Seq<u8>, vault: Seq<u8>, now: i64) -> Result<(), EscrowError> {
    if s.status != STATUS_ACTIVE {
        Err(EscrowError::NotActive)
    } else if s.refund@ != signer {
        Err(EscrowError::InvalidSigner)
    } else if s.vault@ != vault {
        Err(EscrowError::InvalidVaultAta)
    } else if now < s.refund_after {
        Err(EscrowError::TooEarly)
    } else {
        Ok(())
    }
}

/// Decides whether a refund of `state` is authorized at time `now`.
pub fn authorize_refund(state: &EscrowState, signer: &[u8; 32], vault: &[u8; 32], now: i64) -> (r: Result<(), EscrowError>)
    ensures
        r == refund_authorization(*state, signer@, vault@, now),
{
    require_active(state)?;
    if !same_key(&state.refund, signer) {
        return Err(EscrowError::InvalidSigner);
    }
    if !same_key(&state.vault, vault) {
        return Err(EscrowError::InvalidVaultAta);
    }
    if now < state.refund_after {
        return Err(EscrowError::TooEarly);
    }
    Ok(())
}

/// The outcome of a refund of record `s` at time `now`, once the accounts are
/// present, signed and writable.
pub open spec fn refund_with(program_id: Seq<u8>, a: Seq<AccountView>, now: i64, s: EscrowState) -> Result<RefundPlan, EscrowError> {
    let auth = refund_authorization(s, a[0].key@, a[2].key@, now);
    if auth is Err {
        Err(auth->Err_0)
    } else if !token_mint_ok(a[2].data@, s.mint@) || !token_account_ok(a[3].data@, s.mint@, a[0].key@) {
        Err(EscrowError::InvalidTokenAccount)
    } else if escrow_address_error(program_id, a[1].key@, s) {
        Err(EscrowError::InvalidEscrowPda)
    } else if token_account_of(a[2].data@)->Some_0.1 != a[1].key@ {
        Err(EscrowError::InvalidTokenAccount)
    } else if s.net_amount + s.platform_fee_amount + s.trade_fee_amount > u64::MAX {
        Err(EscrowError::InvalidInstruction)
    } else {
        Ok(
            RefundPlan {
                state: settled(s, STATUS_REFUNDED),
                total_amount: (s.net_amount + s.platform_fee_amount + s.trade_fee_amount) as u64,
            },
        )
    }
}

/// The outcome of a refund request at time `now`. Accounts: refund party
/// (signer), escrow record, vault, refund token account, token program,
/// clock.
pub open spec fn refund_outcome(program_id: Seq<u8>, a: Seq<AccountView>, now: i64) -> Result<RefundPlan, EscrowError> {
    if a.len() < 6 {
        Err(EscrowError::NotEnoughAccountKeys)
    } else if !a[0].is_signer {
        Err(EscrowError::InvalidSigner)
    } else if !(a[1].is_writable && a[2].is_writable && a[3].is_writable) {
        Err(EscrowError::InvalidAccountData)
    } else if a[1].data@.len() != ESCROW_LEN {
        Err(EscrowError::InvalidAccountData)
    } else {
        refund_with(program_id, a, now, escrow_of(a[1].data@))
    }
}

/// Checks a refund: after the refund time the refund party takes back all
/// that the vault holds for the escrow, fees included.
pub fn process_refund(program_id: &[u8; 32], accounts: &[AccountView], now: i64) -> (r: Result<RefundPlan, EscrowError>)
    ensures
        r == refund_outcome(program_id@, accounts@, now),
{
    if accounts.len() < 6 {
        return Err(EscrowError::NotEnoughAccountKeys);
    }
    let refund = &accounts[0];
    let escrow = &accounts[1];
    let vault = &accounts[2];
    let refund_token = &accounts[3];
    assert_signer(refund)?;
    assert_writable(escrow)?;
    assert_writable(vault)?;
    assert_writable(refund_token)?;
    let state = match EscrowState::decode(escrow.data.as_slice()) {
        Some(s) => s,
        None => return Err(EscrowError::InvalidAccountData),
    };
    authorize_refund(&state, &refund.key, &vault.key, now)?;
    let vault_state = token_of_mint(vault, &state.mint)?;
    check_token_account(refund_token, &state.mint, &refund.key)?;
    let expected_escrow = check_escrow_address(program_id, escrow, &state)?;
    if !same_key(&vault_state.owner, &expected_escrow) {
        return Err(EscrowError::InvalidTokenAccount);
    }
    let with_platform = match state.net_amount.checked_add(state.platform_fee_amount) {
        Some(v) => v,
        None => return Err(EscrowError::InvalidInstruction),
    };
    let total_amount = match with_platform.checked_add(state.trade_fee_amount) {
        Some(v) => v,
        None => return Err(EscrowError::InvalidInstruction),
    };
    let settled_state = EscrowState {
        status: STATUS_REFUNDED,
        net_amount: 0,
        platform_fee_amount: 0,
        trade_fee_amount: 0,
        ..state
    };
    Ok(RefundPlan { state: settled_state, total_amount })
}

/// A successful create: the record to persist, what to draw from the
/// depositor into the vault, and which token accounts must first be created.
#[derive(Debug, Clone, Copy)]
pub struct InitPlan {
    pub state: EscrowState,
    pub total_amount: u64,
    pub create_platform_fee_vault: bool,
    pub create_trade_fee_vault: bool,
    pub create_vault: bool,
}

/// The arguments of a create request.
#[derive(Debug, Clone, Copy)]
pub struct InitArgs {
    pub payment_hash: [u8; 32],
    pub recipient: [u8; 32],
    pub refund: [u8; 32],
    pub refund_after: i64,
    pub amount: u64,
    pub expected_platform_fee_bps: u16,
    pub expected_trade_fee_bps: u16,
    pub trade_fee_collector: [u8; 32],
}

/// Why the platform policy in `cfg` cannot back a new escrow, if it cannot.
pub open spec fn platform_policy_error(program_id: Seq<u8>, cfg: AccountView, expected_bps: u16) -> Option<EscrowError> {
    let pda = program_address_of(config_seeds(), program_id);
    let c = config_of(cfg.data@);
    if pda is None || pda->Some_0.0 != cfg.key@ {
        Some(EscrowError::InvalidConfigPda)
    } else if cfg.data@.len() != CONFIG_LEN || c.v != CONFIG_VERSION || c.bump != pda->Some_0.1 {
        Some(EscrowError::InvalidConfigState)
    } else if c.fee_bps > MAX_FEE_BPS {
        Some(EscrowError::FeeTooHigh)
    } else if c.fee_bps != expected_bps {
        Some(EscrowError::FeeMismatch)
    } else {
        None
    }
}

/// Why the trade policy in `cfg` cannot back a new escrow for `collector`, if
/// it cannot.
pub open spec fn trade_policy_error(program_id: Seq<u8>, cfg: AccountView, collector: Seq<u8>, expected_bps: u16) -> Option<EscrowError> {
    let pda = program_address_of(trade_config_seeds(collector), program_id);
    let c = config_of(cfg.data@);
    if pda is None || pda->Some_0.0 != cfg.key@ {
        Some(EscrowError::InvalidTradeConfigPda)
    } else if cfg.data@.len() != CONFIG_LEN || c.v != CONFIG_VERSION || c.bump != pda->Some_0.1 {
        Some(EscrowError::InvalidTradeConfigState)
    } else if c.fee_bps > MAX_FEE_BPS {
        Some(EscrowError::FeeTooHigh)
    } else if c.fee_collector@ != collector || c.authority@ != collector {
        Some(EscrowError::InvalidTradeConfigState)
    } else if c.fee_bps != expected_bps {
        Some(EscrowError::FeeMismatch)
    } else {
        None
    }
}

/// The record a create persists.
pub open spec fn new_escrow(a: Seq<AccountView>, args: InitArgs, pc: ConfigState, tc: ConfigState, bump: u8) -> EscrowState {
    EscrowState {
        v: ESCROW_VERSION,
        status: STATUS_ACTIVE,
        payment_hash: args.payment_hash,
        recipient: args.recipient,
        refund: args.refund,
        refund_after: args.refund_after,
        mint: a[4].key,
        net_amount: args.amount,
        platform_fee_amount: fee_of(args.amount as nat, pc.fee_bps as nat) as u64,
        platform_fee_bps: pc.fee_bps,
        platform_fee_collector: pc.fee_collector,
        trade_fee_amount: fee_of(args.amount as nat, tc.fee_bps as nat) as u64,
        trade_fee_bps: tc.fee_bps,
        trade_fee_collector: args.trade_fee_collector,
        vault: a[3].key,
        bump,
    }
}

/// What the depositor is drawn for in all.
pub open spec fn deposit_total(amount: u64, pc: ConfigState, tc: ConfigState) -> nat {
    amount as nat + fee_of(amount as nat, pc.fee_bps as nat) + fee_of(amount as nat, tc.fee_bps as nat)
}

/// The outcome of a create once both policies are known good.
pub open spec fn init_funding(a: Seq<AccountView>, args: InitArgs, pc: ConfigState, tc: ConfigState, bump: u8) -> Result<InitPlan, EscrowError> {
    let total = deposit_total(args.amount, pc, tc);
    if pc.fee_bps + tc.fee_bps > MAX_FEE_BPS {
        Err(EscrowError::FeeTooHigh)
    } else if !a[10].is_writable {
        Err(EscrowError::InvalidAccountData)
    } else if associated_address_of(a[9].key@, a[4].key@) != Some(a[10].key@) {
        Err(EscrowError::InvalidFeeVaultAta)
    } else if !a[12].is_writable {
        Err(EscrowError::InvalidAccountData)
    } else if associated_address_of(a[11].key@, a[4].key@) != Some(a[12].key@) {
        Err(EscrowError::InvalidTradeFeeVaultAta)
    } else if !token_account_ok(a[1].data@, a[4].key@, a[0].key@) {
        Err(EscrowError::InvalidTokenAccount)
    } else if total > u64::MAX {
        Err(EscrowError::InvalidInstruction)
    } else if token_account_of(a[1].data@)->Some_0.2 < total {
        Err(EscrowError::InvalidTokenAccount)
    } else if a[2].data@.len() != 0 {
        Err(EscrowError::AlreadyInitialized)
    } else {
        Ok(
            InitPlan {
                state: new_escrow(a, args, pc, tc, bump),
                total_amount: total as u64,
                create_platform_fee_vault: a[10].data@.len() == 0,
                create_trade_fee_vault: a[12].data@.len() == 0,
                create_vault: a[3].data@.len() == 0,
            },
        )
    }
}

/// The outcome of a create request. Accounts: depositor (signer), depositor
/// token account, escrow record, vault, mint, system program, token program,
/// associated token program, rent, platform policy, platform fee vault,
/// trade policy, trade fee vault.
pub open spec fn init_outcome(program_id: Seq<u8>, a: Seq<AccountView>, args: InitArgs) -> Result<InitPlan, EscrowError> {
    let pda = program_address_of(escrow_seeds(args.payment_hash@), program_id);
    if a.len() < 13 {
        Err(EscrowError::NotEnoughAccountKeys)
    } else if !a[0].is_signer {
        Err(EscrowError::InvalidSigner)
    } else if !(a[0].is_writable && a[1].is_writable && a[2].is_writable && a[3].is_writable) {
        Err(EscrowError::InvalidAccountData)
    } else if pda is None || pda->Some_0.0 != a[2].key@ {
        Err(EscrowError::InvalidEscrowPda)
    } else if platform_policy_error(program_id, a[9], args.expected_platform_fee_bps) is Some {
        Err(platform_policy_error(program_id, a[9], args.expected_platform_fee_bps)->Some_0)
    } else if associated_address_of(a[2].key@, a[4].key@) != Some(a[3].key@) {
        Err(EscrowError::InvalidVaultAta)
    } else if trade_policy_error(
        program_id,
        a[11],
        args.trade_fee_collector@,
        args.expected_trade_fee_bps,
    ) is Some {
        Err(
            trade_policy_error(
                program_id,
                a[11],
                args.trade_fee_collector@,
                args.expected_trade_fee_bps,
            )->Some_0,
        )
    } else {
        init_funding(a, args, config_of(a[9].data@), config_of(a[11].data@), pda->Some_0.1)
    }
}

fn check_platform_policy(program_id: &[u8; 32], cfg: &AccountView, expected_bps: u16) -> (r: Result<ConfigState, EscrowError>)
    ensures
        r is Ok <==> platform_policy_error(program_id@, *cfg, expected_bps) is None,
        r is Ok ==> r->Ok_0 == config_of(cfg.data@),
        r is Err ==> platform_policy_error(program_id@, *cfg, expected_bps) == Some(r->Err_0),
{
    let bump = match config_pda(program_id) {
        Some((k, b)) => {
            if !same_key(&k, &cfg.key) {
                return Err(EscrowError::InvalidConfigPda);
            }
            b
        },
        None => return Err(EscrowError::InvalidConfigPda),
    };
    let c = match ConfigState::decode(cfg.data.as_slice()) {
        Some(c) => c,
        None => return Err(EscrowError::InvalidConfigState),
    };
    if c.v != CONFIG_VERSION || c.bump != bump {
        return Err(EscrowError::InvalidConfigState);
    }
    if c.fee_bps > MAX_FEE_BPS {
        return Err(EscrowError::FeeTooHigh);
    }
    if c.fee_bps != expected_bps {
        return Err(EscrowError::FeeMismatch);
    }
    Ok(c)
}

fn check_trade_policy(program_id: &[u8; 32], cfg: &AccountView, collector: &[u8; 32], expected_bps: u16) -> (r: Result<ConfigState, EscrowError>)
    ensures
        r is Ok <==> trade_policy_error(program_id@, *cfg, collector@, expected_bps) is None,
        r is Ok ==> r->Ok_0 == config_of(cfg.data@),
        r is Err ==> trade_policy_error(program_id@, *cfg, collector@, expected_bps) == Some(r->Err_0),
{
    let bump = match trade_config_pda(program_id, collector) {
        Some((k, b)) => {
            if !same_key(&k, &cfg.key) {
                return Err(EscrowError::InvalidTradeConfigPda);
            }
            b
        },
        None => return Err(EscrowError::InvalidTradeConfigPda),
    };
    let c = match ConfigState::decode(cfg.data.as_slice()) {
        Some(c) => c,
        None => return Err(EscrowError::InvalidTradeConfigState),
    };
    if c.v != CONFIG_VERSION || c.bump != bump {
        return Err(EscrowError::InvalidTradeConfigState);
    }
    if c.fee_bps > MAX_FEE_BPS {
        return Err(EscrowError::FeeTooHigh);
    }
    if !same_key(&c.fee_collector, collector) || !same_key(&c.authority, collector) {
        return Err(EscrowError::InvalidTradeConfigState);
    }
    if c.fee_bps != expected_bps {
        return Err(EscrowError::FeeMismatch);
    }
    Ok(c)
}

/// Checks a create: both policies exist at the rates the depositor expects,
/// their sum is within the cap, and the depositor can pay the amount plus
/// both fees, which all go into the new escrow's vault.
pub fn process_init(program_id: &[u8; 32], accounts: &[AccountView], args: &InitArgs) -> (r: Result<InitPlan, EscrowError>)
    ensures
        r == init_outcome(program_id@, accounts@, *args),
{
    if accounts.len() < 13 {
        return Err(EscrowError::NotEnoughAccountKeys);
    }
    let payer = &accounts[0];
    let payer_token = &accounts[1];
    let escrow = &accounts[2];
    let vault = &accounts[3];
    let mint = &accounts[4];
    let config = &accounts[9];
    let platform_fee_vault = &accounts[10];
    let trade_config = &accounts[11];
    let trade_fee_vault = &accounts[12];
    assert_signer(payer)?;
    assert_writable(payer)?;
    assert_writable(payer_token)?;
    assert_writable(escrow)?;
    assert_writable(vault)?;
    let bump = match pda_for_hash(program_id, &args.payment_hash) {
        Some((k, b)) => {
            if !same_key(&k, &escrow.key) {
                return Err(EscrowError::InvalidEscrowPda);
            }
            b
        },
        None => return Err(EscrowError::InvalidEscrowPda),
    };
    let pc = check_platform_policy(program_id, config, args.expected_platform_fee_bps)?;
    if !is_associated_account(&escrow.key, &mint.key, &vault.key) {
        return Err(EscrowError::InvalidVaultAta);
    }
    let tc = check_trade_policy(program_id, trade_config, &args.trade_fee_collector, args.expected_trade_fee_bps)?;
    if pc.fee_bps as u32 + tc.fee_bps as u32 > MAX_FEE_BPS as u32 {
        return Err(EscrowError::FeeTooHigh);
    }
    assert_writable(platform_fee_vault)?;
    if !is_associated_account(&config.key, &mint.key, &platform_fee_vault.key) {
        return Err(EscrowError::InvalidFeeVaultAta);
    }
    assert_writable(trade_fee_vault)?;
    if !is_associated_account(&trade_config.key, &mint.key, &trade_fee_vault.key) {
        return Err(EscrowError::InvalidTradeFeeVaultAta);
    }
    let payer_state = token_of_mint(payer_token, &mint.key)?;
    if !same_key(&payer_state.owner, &payer.key) {
        return Err(EscrowError::InvalidTokenAccount);
    }
    let split = match split_deposit(args.amount, pc.fee_bps, tc.fee_bps) {
        Some(s) => s,
        None => return Err(EscrowError::InvalidInstruction),
    };
    if payer_state.amount < split.total_amount {
        return Err(EscrowError::InvalidTokenAccount);
    }
    if !data_is_empty(escrow) {
        return Err(EscrowError::AlreadyInitialized);
    }
    let state = EscrowState {
        v: ESCROW_VERSION,
        status: STATUS_ACTIVE,
        payment_hash: args.payment_hash,
        recipient: args.recipient,
        refund: args.refund,
        refund_after: args.refund_after,
        mint: mint.key,
        net_amount: split.net_amount,
        platform_fee_amount: split.platform_fee_amount,
        platform_fee_bps: pc.fee_bps,
        platform_fee_collector: pc.fee_collector,
        trade_fee_amount: split.trade_fee_amount,
        trade_fee_bps: tc.fee_bps,
        trade_fee_collector: args.trade_fee_collector,
        vault: vault.key,
        bump,
    };
    Ok(
        InitPlan {
            state,
            total_amount: split.total_amount,
            create_platform_fee_vault: data_is_empty(platform_fee_vault),
            create_trade_fee_vault: data_is_empty(trade_fee_vault),
            create_vault: data_is_empty(vault),
        },
    )
}

/// A create that succeeds snapshots both policies' current rates, leaves the
/// recipient the full amount, puts each fee at the amount times its rate over
/// 10000 rounded down, and draws exactly the amount plus both fees.
pub proof fn lemma_create_conserves_deposit(program_id: Seq<u8>, a: Seq<AccountView>, args: InitArgs)
    requires
        init_outcome(program_id, a, args) is Ok,
    ensures
        ({
            let p = init_outcome(program_id, a, args)->Ok_0;
            &&& p.state.status == STATUS_ACTIVE
            &&& p.state.net_amount == args.amount
            &&& p.state.platform_fee_bps == config_of(a[9].data@).fee_bps
            &&& p.state.trade_fee_bps == config_of(a[11].data@).fee_bps
            &&& p.state.platform_fee_amount as nat == fee_of(args.amount as nat, p.state.platform_fee_bps as nat)
            &&& p.state.trade_fee_amount as nat == fee_of(args.amount as nat, p.state.trade_fee_bps as nat)
            &&& p.total_amount as nat == p.state.net_amount + p.state.platform_fee_amount + p.state.trade_fee_amount
        }),
{
    lemma_fee_at_most_amount(args.amount as nat, config_of(a[9].data@).fee_bps as nat);
    lemma_fee_at_most_amount(args.amount as nat, config_of(a[11].data@).fee_bps as nat);
}

/// A create goes through only at the rates the depositor expected: a
/// mismatch with either live policy fails the request, and nothing moves.
pub proof fn lemma_create_pins_expected_rates(program_id: Seq<u8>, a: Seq<AccountView>, args: InitArgs)
    requires
        init_outcome(program_id, a, args) is Ok,
    ensures
        args.expected_platform_fee_bps == config_of(a[9].data@).fee_bps,
        args.expected_trade_fee_bps == config_of(a[11].data@).fee_bps,
{
}

/// A claim that goes through was signed by the recorded recipient and showed
/// a preimage whose hash is the recorded payment hash.
pub proof fn lemma_claim_needs_recipient_and_preimage(program_id: Seq<u8>, a: Seq<AccountView>, preimage: Seq<u8>)
    requires
        claim_outcome(program_id, a, preimage) is Ok,
    ensures
        a[0].is_signer,
        escrow_of(a[1].data@).recipient@ == a[0].key@,
        hash_of(preimage) == escrow_of(a[1].data@).payment_hash@,
{
}

/// Where a claim would go through, a preimage with another hash is refused
/// with `InvalidPreimage`.
pub proof fn lemma_claim_wrong_preimage_refused(program_id: Seq<u8>, a: Seq<AccountView>, preimage: Seq<u8>, other: Seq<u8>)
    requires
        claim_outcome(program_id, a, preimage) is Ok,
        hash_of(other) != hash_of(preimage),
    ensures
        claim_outcome(program_id, a, other) == Err::<ClaimPlan, EscrowError>(EscrowError::InvalidPreimage),
{
}

/// Where a claim would go through, any other signer is refused with
/// `InvalidSigner`.
pub proof fn lemma_claim_wrong_signer_refused(program_id: Seq<u8>, a: Seq<AccountView>, preimage: Seq<u8>, signer: AccountView)
    requires
        claim_outcome(program_id, a, preimage) is Ok,
        signer.key@ != a[0].key@,
    ensures
        claim_outcome(program_id, a.update(0, signer), preimage) == Err::<ClaimPlan, EscrowError>(
            EscrowError::InvalidSigner,
        ),
{
    assert(a.update(0, signer)[1] == a[1]);
}

/// A refund that goes through was signed by the recorded refund party, no
/// earlier than the refund time.
pub proof fn lemma_refund_needs_party_and_time(program_id: Seq<u8>, a: Seq<AccountView>, now: i64)
    requires
        refund_outcome(program_id, a, now) is Ok,
    ensures
        a[0].is_signer,
        escrow_of(a[1].data@).refund@ == a[0].key@,
        now >= escrow_of(a[1].data@).refund_after,
{
}

/// Where a refund would go through, the same request before the refund time
/// is refused with `TooEarly`.
pub proof fn lemma_refund_too_early_refused(program_id: Seq<u8>, a: Seq<AccountView>, now: i64, earlier: i64)
    requires
        refund_outcome(program_id, a, now) is Ok,
        earlier < escrow_of(a[1].data@).refund_after,
    ensures
        refund_outcome(program_id, a, earlier) == Err::<RefundPlan, EscrowError>(EscrowError::TooEarly),
{
}

/// Where a refund would go through, any other signer is refused with
/// `InvalidSigner`.
pub proof fn lemma_refund_wrong_signer_refused(program_id: Seq<u8>, a: Seq<AccountView>, now: i64, signer: AccountView)
    requires
        refund_outcome(program_id, a, now) is Ok,
        signer.key@ != a[0].key@,
    ensures
        refund_outcome(program_id, a.update(0, signer), now) == Err::<RefundPlan, EscrowError>(
            EscrowError::InvalidSigner,
        ),
{
    assert(a.update(0, signer)[1] == a[1]);
}

/// Once a claim or a refund has gone through and its record is persisted,
/// neither a claim nor a refund on that record can go through again: each is
/// refused, with `NotActive` once its accounts are present, signed and
/// writable.
pub proof fn lemma_settlement_is_final(
    program_id: Seq<u8>,
    a: Seq<AccountView>,
    preimage: Seq<u8>,
    now: i64,
    b: Seq<AccountView>,
    preimage2: Seq<u8>,
    now2: i64,
)
    requires
        b.len() > 1,
        (claim_outcome(program_id, a, preimage) is Ok && b[1].data@ == escrow_bytes(
            claim_outcome(program_id, a, preimage)->Ok_0.state,
        )) || (refund_outcome(program_id, a, now) is Ok && b[1].data@ == escrow_bytes(
            refund_outcome(program_id, a, now)->Ok_0.state,
        )),
    ensures
        claim_outcome(program_id, b, preimage2) is Err,
        refund_outcome(program_id, b, now2) is Err,
        b.len() >= 7 && b[0].is_signer && b[1].is_writable && b[2].is_writable && b[3].is_writable
            && b[4].is_writable && b[5].is_writable ==> claim_outcome(program_id, b, preimage2) == Err::<
            ClaimPlan,
            EscrowError,
        >(EscrowError::NotActive),
        b.len() >= 6 && b[0].is_signer && b[1].is_writable && b[2].is_writable && b[3].is_writable
            ==> refund_outcome(program_id, b, now2) == Err::<RefundPlan, EscrowError>(EscrowError::NotActive),
{
    if claim_outcome(program_id, a, preimage) is Ok && b[1].data@ == escrow_bytes(
        claim_outcome(program_id, a, preimage)->Ok_0.state,
    ) {
        lemma_escrow_round_trip(claim_outcome(program_id, a, preimage)->Ok_0.state);
    } else {
        lemma_escrow_round_trip(refund_outcome(program_id, a, now)->Ok_0.state);
    }
    lemma_escrow_length(escrow_of(b[1].data@));
}

/// A claim on a persisted record pays the fees fixed when the escrow was
/// created, at the rates the policies had then: a claim reads no policy
/// record, so later policy updates cannot change what it pays.
pub proof fn lemma_claim_pays_rates_at_creation(
    program_id: Seq<u8>,
    a: Seq<AccountView>,
    args: InitArgs,
    c: Seq<AccountView>,
    preimage: Seq<u8>,
)
    requires
        init_outcome(program_id, a, args) is Ok,
        c.len() > 1,
        c[1].data@ == escrow_bytes(init_outcome(program_id, a, args)->Ok_0.state),
        claim_outcome(program_id, c, preimage) is Ok,
    ensures
        ({
            let q = claim_outcome(program_id, c, preimage)->Ok_0;
            &&& q.net_amount == args.amount
            &&& q.platform_fee_amount as nat == fee_of(args.amount as nat, config_of(a[9].data@).fee_bps as nat)
            &&& q.trade_fee_amount as nat == fee_of(args.amount as nat, config_of(a[11].data@).fee_bps as nat)
        }),
{
    lemma_create_conserves_deposit(program_id, a, args);
    lemma_escrow_round_trip(init_outcome(program_id, a, args)->Ok_0.state);
}

/// The accounts of a refund are in order apart from who signs and when:
/// present and writable, holding an active record whose amounts sum within a
/// `u64`, with its vault, a refund token account of the signer's, and the
/// escrow at its derived address.
pub open spec fn refund_accounts_in_order(program_id: Seq<u8>, a: Seq<AccountView>) -> bool {
    let s = escrow_of(a[1].data@);
    &&& a.len() >= 6
    &&& a[1].is_writable && a[2].is_writable && a[3].is_writable
    &&& a[1].data@.len() == ESCROW_LEN
    &&& s.status == STATUS_ACTIVE
    &&& s.vault@ == a[2].key@
    &&& token_mint_ok(a[2].data@, s.mint@)
    &&& token_account_ok(a[3].data@, s.mint@, a[0].key@)
    &&& !escrow_address_error(program_id, a[1].key@, s)
    &&& token_account_of(a[2].data@)->Some_0.1 == a[1].key@
    &&& s.net_amount + s.platform_fee_amount + s.trade_fee_amount <= u64::MAX
}

/// With its accounts in order, a refund goes through exactly when the
/// recorded refund party signs at or after the refund time.
pub proof fn lemma_refund_succeeds_iff_authorized(program_id: Seq<u8>, a: Seq<AccountView>, now: i64)
    requires
        refund_accounts_in_order(program_id, a),
    ensures
        refund_outcome(program_id, a, now) is Ok <==> (a[0].is_signer && escrow_of(a[1].data@).refund@
            == a[0].key@ && now >= escrow_of(a[1].data@).refund_after),
{
}

/// The accounts of a claim are in order apart from who signs and the
/// preimage: present and writable, holding an active record, with its vault,
/// a recipient token account of the signer's, the escrow at its derived
/// address and the fee vaults of the recorded policies.
pub open spec fn claim_accounts_in_order(program_id: Seq<u8>, a: Seq<AccountView>) -> bool {
    let s = escrow_of(a[1].data@);
    &&& a.len() >= 7
    &&& a[1].is_writable && a[2].is_writable && a[3].is_writable && a[4].is_writable && a[5].is_writable
    &&& a[1].data@.len() == ESCROW_LEN
    &&& s.status == STATUS_ACTIVE
    &&& s.vault@ == a[2].key@
    &&& token_mint_ok(a[2].data@, s.mint@)
    &&& token_account_ok(a[3].data@, s.mint@, a[0].key@)
    &&& !escrow_address_error(program_id, a[1].key@, s)
    &&& token_account_of(a[2].data@)->Some_0.1 == a[1].key@
    &&& claim_fee_vaults_error(program_id, a[4], a[5], s) is None
}

/// With its accounts in order, a claim goes through exactly when the recorded
/// recipient signs and the preimage hashes to the recorded payment hash.
pub proof fn lemma_claim_succeeds_iff_authorized(program_id: Seq<u8>, a: Seq<AccountView>, preimage: Seq<u8>)
    requires
        claim_accounts_in_order(program_id, a),
    ensures
        claim_outcome(program_id, a, preimage) is Ok <==> (a[0].is_signer && escrow_of(a[1].data@).recipient@
            == a[0].key@ && hash_of(preimage) == escrow_of(a[1].data@).payment_hash@),
{
}

} // verus!
