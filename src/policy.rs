//! The two fee policies, platform and trade: one state machine, told apart
//! only by their seeds and their error codes. The platform policy is a single
//! record; there is one trade policy per fee collector.
use vstd::prelude::*;
use crate::accounts::{assert_signer, assert_writable, data_is_empty, AccountView};
use crate::address::{config_pda, config_seeds, is_associated_account, same_key, trade_config_pda, trade_config_seeds};
use crate::error::EscrowError;
use crate::host::{associated_address_of, program_address_of, token_account_of, unpack_token_account};
use crate::state::{config_of, ConfigState, CONFIG_LEN, CONFIG_VERSION};
use crate::MAX_FEE_BPS;

verus! {

#[derive(Debug, Clone, Copy, PartialEq, Eq, Structural)]
pub enum PolicyKind {
    Platform,
    Trade,
}

/// A successful withdrawal: how much to move from the fee vault to the
/// collector (zero: nothing to do), signed for with the policy's bump.
#[derive(Debug, Clone, Copy)]
pub struct WithdrawPlan {
    pub amount: u64,
    pub bump: u8,
}

/// The seeds of a policy's address; a trade policy is keyed by its collector.
pub open spec fn policy_seeds(kind: PolicyKind, fee_collector: Seq<u8>) -> Seq<Seq<u8>> {
    match kind {
        PolicyKind::Platform => config_seeds(),
        PolicyKind::Trade => trade_config_seeds(fee_collector),
    }
}

pub open spec fn address_error(kind: PolicyKind) -> EscrowError {
    match kind {
        PolicyKind::Platform => EscrowError::InvalidConfigPda,
        PolicyKind::Trade => EscrowError::InvalidTradeConfigPda,
    }
}

pub open spec fn state_error(kind: PolicyKind) -> EscrowError {
    match kind {
        PolicyKind::Platform => EscrowError::InvalidConfigState,
        PolicyKind::Trade => EscrowError::InvalidTradeConfigState,
    }
}

pub open spec fn fee_vault_error(kind: PolicyKind) -> EscrowError {
    match kind {
        PolicyKind::Platform => EscrowError::InvalidFeeVaultAta,
        PolicyKind::Trade => EscrowError::InvalidTradeFeeVaultAta,
    }
}

fn policy_address(kind: PolicyKind, program_id: &[u8; 32], fee_collector: &[u8; 32]) -> (r: Option<([u8; 32], u8)>)
    ensures
        crate::host::address_view(r) == program_address_of(policy_seeds(kind, fee_collector@), program_id@),
{
    match kind {
        PolicyKind::Platform => config_pda(program_id),
        PolicyKind::Trade => trade_config_pda(program_id, fee_collector),
    }
}

/// The policy record sits at its derived address, `key`.
pub open spec fn policy_address_ok(kind: PolicyKind, program_id: Seq<u8>, fee_collector: Seq<u8>, key: Seq<u8>) -> bool {
    let pda = program_address_of(policy_seeds(kind, fee_collector), program_id);
    pda is Some && pda->Some_0.0 == key
}

/// The bump of the policy's derived address.
pub open spec fn policy_bump(kind: PolicyKind, program_id: Seq<u8>, fee_collector: Seq<u8>) -> u8 {
    program_address_of(policy_seeds(kind, fee_collector), program_id)->Some_0.1
}

fn check_policy_address(kind: PolicyKind, program_id: &[u8; 32], fee_collector: &[u8; 32], key: &[u8; 32]) -> (r: Result<u8, EscrowError>)
    ensures
        r is Ok <==> policy_address_ok(kind, program_id@, fee_collector@, key@),
        r is Ok ==> r->Ok_0 == policy_bump(kind, program_id@, fee_collector@),
        r is Err ==> r->Err_0 == address_error(kind),
{
    let err = match kind {
        PolicyKind::Platform => EscrowError::InvalidConfigPda,
        PolicyKind::Trade => EscrowError::InvalidTradeConfigPda,
    };
    match policy_address(kind, program_id, fee_collector) {
        Some((k, b)) => {
            if !same_key(&k, key) {
                return Err(err);
            }
            Ok(b)
        },
        None => Err(err),
    }
}

/// The stored policy in `data` is of the current layout and carries `bump`.
pub open spec fn policy_record_ok(data: Seq<u8>, bump: u8) -> bool {
    data.len() == CONFIG_LEN && config_of(data).v == CONFIG_VERSION && config_of(data).bump == bump
}

fn load_policy(kind: PolicyKind, ai: &AccountView, bump: u8) -> (r: Result<ConfigState, EscrowError>)
    ensures
        r is Ok <==> policy_record_ok(ai.data@, bump),
        r is Ok ==> r->Ok_0 == config_of(ai.data@),
        r is Err ==> r->Err_0 == state_error(kind),
{
    let err = match kind {
        PolicyKind::Platform => EscrowError::InvalidConfigState,
        PolicyKind::Trade => EscrowError::InvalidTradeConfigState,
    };
    match ConfigState::decode(ai.data.as_slice()) {
        Some(c) => {
            if c.v != CONFIG_VERSION || c.bump != bump {
                return Err(err);
            }
            Ok(c)
        },
        None => Err(err),
    }
}

/// The outcome of creating a policy. Accounts: payer, who becomes the
/// authority (signer); policy record; system program; rent.
pub open spec fn init_policy_outcome(kind: PolicyKind, program_id: Seq<u8>, a: Seq<AccountView>, fee_collector: [u8; 32], fee_bps: u16) -> Result<ConfigState, EscrowError> {
    if a.len() < 4 {
        Err(EscrowError::NotEnoughAccountKeys)
    } else if !a[0].is_signer {
        Err(EscrowError::InvalidSigner)
    } else if !(a[0].is_writable && a[1].is_writable) {
        Err(EscrowError::InvalidAccountData)
    } else if fee_bps > MAX_FEE_BPS {
        Err(EscrowError::FeeTooHigh)
    } else if a[0].key@ != fee_collector@ {
        Err(EscrowError::InvalidSigner)
    } else if !policy_address_ok(kind, program_id, fee_collector@, a[1].key@) {
        Err(address_error(kind))
    } else if a[1].data@.len() != 0 {
        Err(EscrowError::AlreadyInitialized)
    } else {
        Ok(
            ConfigState {
                v: CONFIG_VERSION,
                authority: a[0].key,
                fee_collector,
                fee_bps,
                bump: policy_bump(kind, program_id, fee_collector@),
            },
        )
    }
}

/// Checks the creation of a policy by its own collector, and returns the
/// record to persist at the policy's address.
pub fn process_init_policy(kind: PolicyKind, program_id: &[u8; 32], accounts: &[AccountView], fee_collector: &[u8; 32], fee_bps: u16) -> (r: Result<ConfigState, EscrowError>)
    ensures
        r == init_policy_outcome(kind, program_id@, accounts@, *fee_collector, fee_bps),
{
    if accounts.len() < 4 {
        return Err(EscrowError::NotEnoughAccountKeys);
    }
    let payer = &accounts[0];
    let config = &accounts[1];
    assert_signer(payer)?;
    assert_writable(payer)?;
    assert_writable(config)?;
    if fee_bps > MAX_FEE_BPS {
        return Err(EscrowError::FeeTooHigh);
    }
    if !same_key(&payer.key, fee_collector) {
        return Err(EscrowError::InvalidSigner);
    }
    let bump = check_policy_address(kind, program_id, fee_collector, &config.key)?;
    if !data_is_empty(config) {
        return Err(EscrowError::AlreadyInitialized);
    }
    Ok(ConfigState { v: CONFIG_VERSION, authority: payer.key, fee_collector: *fee_collector, fee_bps, bump })
}

/// The outcome of updating a policy. Accounts: authority (signer); policy
/// record, at the address derived from the authority. The new collector may
/// be another identity; withdrawals then need the two to agree again.
pub open spec fn set_policy_outcome(kind: PolicyKind, program_id: Seq<u8>, a: Seq<AccountView>, fee_collector: [u8; 32], fee_bps: u16) -> Result<ConfigState, EscrowError> {
    if a.len() < 2 {
        Err(EscrowError::NotEnoughAccountKeys)
    } else if !a[0].is_signer {
        Err(EscrowError::InvalidSigner)
    } else if !a[1].is_writable {
        Err(EscrowError::InvalidAccountData)
    } else if fee_bps > MAX_FEE_BPS {
        Err(EscrowError::FeeTooHigh)
    } else if !policy_address_ok(kind, program_id, a[0].key@, a[1].key@) {
        Err(address_error(kind))
    } else if !policy_record_ok(a[1].data@, policy_bump(kind, program_id, a[0].key@)) {
        Err(state_error(kind))
    } else if config_of(a[1].data@).authority@ != a[0].key@ {
        Err(EscrowError::InvalidSigner)
    } else {
        Ok(ConfigState { fee_collector, fee_bps, ..config_of(a[1].data@) })
    }
}

/// Checks an update of a policy's collector and rate by its authority, and
/// returns the record to persist.
pub fn process_set_policy(kind: PolicyKind, program_id: &[u8; 32], accounts: &[AccountView], fee_collector: &[u8; 32], fee_bps: u16) -> (r: Result<ConfigState, EscrowError>)
    ensures
        r == set_policy_outcome(kind, program_id@, accounts@, *fee_collector, fee_bps),
{
    if accounts.len() < 2 {
        return Err(EscrowError::NotEnoughAccountKeys);
    }
    let authority = &accounts[0];
    let config = &accounts[1];
    assert_signer(authority)?;
    assert_writable(config)?;
    if fee_bps > MAX_FEE_BPS {
        return Err(EscrowError::FeeTooHigh);
    }
    let bump = check_policy_address(kind, program_id, &authority.key, &config.key)?;
    let state = load_policy(kind, config, bump)?;
    if !same_key(&state.authority, &authority.key) {
        return Err(EscrowError::InvalidSigner);
    }
    Ok(ConfigState { fee_collector: *fee_collector, fee_bps, ..state })
}

/// What a withdrawal of `requested` from a balance of `balance` moves: zero
/// asks for everything; more than the balance is refused.
pub open spec fn withdraw_amount_of(requested: u64, balance: u64) -> Result<u64, EscrowError> {
    let amount = if requested == 0 {
        balance
    } else {
        requested
    };
    if amount > balance {
        Err(EscrowError::InvalidInstruction)
    } else {
        Ok(amount)
    }
}

/// Resolves how much a withdrawal moves out of a fee vault holding `balance`.
pub fn resolve_withdraw_amount(requested: u64, balance: u64) -> (r: Result<u64, EscrowError>)
    ensures
        r == withdraw_amount_of(requested, balance),
        requested == 0 ==> r == Ok::<u64, EscrowError>(balance),
        requested > balance ==> r == Err::<u64, EscrowError>(EscrowError::InvalidInstruction),
        0 < requested <= balance ==> r == Ok::<u64, EscrowError>(requested),
{
    let amount = if requested == 0 {
        balance
    } else {
        requested
    };
    if amount > balance {
        return Err(EscrowError::InvalidInstruction);
    }
    Ok(amount)
}

/// The outcome of a withdrawal once the policy record is known good.
pub open spec fn withdraw_with(kind: PolicyKind, a: Seq<AccountView>, amount: u64, c: ConfigState, bump: u8) -> Result<WithdrawPlan, EscrowError> {
    let fv = token_account_of(a[2].data@);
    let dest = token_account_of(a[3].data@);
    if c.authority@ != a[0].key@ || c.fee_collector@ != a[0].key@ {
        Err(EscrowError::InvalidSigner)
    } else if fv is None || fv->Some_0.1 != a[1].key@ {
        Err(EscrowError::InvalidTokenAccount)
    } else if associated_address_of(a[1].key@, fv->Some_0.0) != Some(a[2].key@) {
        Err(fee_vault_error(kind))
    } else if dest is None || dest->Some_0.0 != fv->Some_0.0 || dest->Some_0.1 != c.fee_collector@ {
        Err(EscrowError::InvalidTokenAccount)
    } else if withdraw_amount_of(amount, fv->Some_0.2) is Err {
        Err(EscrowError::InvalidInstruction)
    } else {
        Ok(WithdrawPlan { amount: withdraw_amount_of(amount, fv->Some_0.2)->Ok_0, bump })
    }
}

/// The outcome of withdrawing fees. Accounts: collector, who must be the
/// policy's authority and collector (signer); policy record; fee vault;
/// collector's token account; token program.
pub open spec fn withdraw_outcome(kind: PolicyKind, program_id: Seq<u8>, a: Seq<AccountView>, amount: u64) -> Result<WithdrawPlan, EscrowError> {
    if a.len() < 5 {
        Err(EscrowError::NotEnoughAccountKeys)
    } else if !a[0].is_signer {
        Err(EscrowError::InvalidSigner)
    } else if !(a[2].is_writable && a[3].is_writable) {
        Err(EscrowError::InvalidAccountData)
    } else if !policy_address_ok(kind, program_id, a[0].key@, a[1].key@) {
        Err(address_error(kind))
    } else if !policy_record_ok(a[1].data@, policy_bump(kind, program_id, a[0].key@)) {
        Err(state_error(kind))
    } else {
        withdraw_with(kind, a, amount, config_of(a[1].data@), policy_bump(kind, program_id, a[0].key@))
    }
}

/// Checks a withdrawal from a policy's fee vault to its collector.
pub fn process_withdraw_fees(kind: PolicyKind, program_id: &[u8; 32], accounts: &[AccountView], amount: u64) -> (r: Result<WithdrawPlan, EscrowError>)
    ensures
        r == withdraw_outcome(kind, program_id@, accounts@, amount),
{
    if accounts.len() < 5 {
        return Err(EscrowError::NotEnoughAccountKeys);
    }
    let fee_collector = &accounts[0];
    let config = &accounts[1];
    let fee_vault = &accounts[2];
    let dest_token = &accounts[3];
    assert_signer(fee_collector)?;
    assert_writable(fee_vault)?;
    assert_writable(dest_token)?;
    let bump = check_policy_address(kind, program_id, &fee_collector.key, &config.key)?;
    let state = load_policy(kind, config, bump)?;
    if !same_key(&state.authority, &fee_collector.key) || !same_key(&state.fee_collector, &fee_collector.key) {
        return Err(EscrowError::InvalidSigner);
    }
    let fv = match unpack_token_account(fee_vault.data.as_slice()) {
        Some(t) => t,
        None => return Err(EscrowError::InvalidTokenAccount),
    };
    if !same_key(&fv.owner, &config.key) {
        return Err(EscrowError::InvalidTokenAccount);
    }
    if !is_associated_account(&config.key, &fv.mint, &fee_vault.key) {
        return match kind {
            PolicyKind::Platform => Err(EscrowError::InvalidFeeVaultAta),
            PolicyKind::Trade => Err(EscrowError::InvalidTradeFeeVaultAta),
        };
    }
    let dest = match unpack_token_account(dest_token.data.as_slice()) {
        Some(t) => t,
        None => return Err(EscrowError::InvalidTokenAccount),
    };
    if !same_key(&dest.mint, &fv.mint) || !same_key(&dest.owner, &state.fee_collector) {
        return Err(EscrowError::InvalidTokenAccount);
    }
    let withdraw = resolve_withdraw_amount(amount, fv.amount)?;
    Ok(WithdrawPlan { amount: withdraw, bump })
}

/// A withdrawal that goes through moves the whole fee-vault balance when
/// asked for zero (nothing, when the vault is empty), and otherwise exactly
/// the amount asked for, which is then within the balance.
pub proof fn lemma_withdraw_amount(kind: PolicyKind, program_id: Seq<u8>, a: Seq<AccountView>, amount: u64)
    requires
        withdraw_outcome(kind, program_id, a, amount) is Ok,
    ensures
        ({
            let balance = token_account_of(a[2].data@)->Some_0.2;
            let moved = withdraw_outcome(kind, program_id, a, amount)->Ok_0.amount;
            &&& amount == 0 ==> moved == balance
            &&& amount != 0 ==> moved == amount && amount <= balance
        }),
{
}

/// Where a withdrawal would go through, asking for more than the fee vault
/// holds is refused with `InvalidInstruction`.
pub proof fn lemma_withdraw_over_balance_refused(kind: PolicyKind, program_id: Seq<u8>, a: Seq<AccountView>, amount: u64, more: u64)
    requires
        withdraw_outcome(kind, program_id, a, amount) is Ok,
        more > token_account_of(a[2].data@)->Some_0.2,
    ensures
        withdraw_outcome(kind, program_id, a, more) == Err::<WithdrawPlan, EscrowError>(
            EscrowError::InvalidInstruction,
        ),
{
}

/// A policy record that a create or an update writes carries a rate within
/// the cap. A create makes its signer the authority; an update keeps the
/// authority, layout version and bump of the record it replaces.
pub proof fn lemma_policy_writes_keep_invariant(kind: PolicyKind, program_id: Seq<u8>, a: Seq<AccountView>, fee_collector: [u8; 32], fee_bps: u16)
    ensures
        init_policy_outcome(kind, program_id, a, fee_collector, fee_bps) is Ok ==> {
            let c = init_policy_outcome(kind, program_id, a, fee_collector, fee_bps)->Ok_0;
            &&& c.fee_bps <= MAX_FEE_BPS
            &&& c.authority@ == a[0].key@
            &&& c.fee_collector == fee_collector
            &&& c.v == CONFIG_VERSION
        },
        set_policy_outcome(kind, program_id, a, fee_collector, fee_bps) is Ok ==> {
            let c = set_policy_outcome(kind, program_id, a, fee_collector, fee_bps)->Ok_0;
            let old_record = config_of(a[1].data@);
            &&& c.fee_bps <= MAX_FEE_BPS
            &&& c.authority == old_record.authority
            &&& c.authority@ == a[0].key@
            &&& c.v == CONFIG_VERSION
            &&& c.bump == old_record.bump
        },
{
}

} // verus!
