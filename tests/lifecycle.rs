use ln_usdt_escrow::accounts::AccountView;
use ln_usdt_escrow::address::{config_pda, is_associated_account, pda_for_hash, trade_config_pda};
use ln_usdt_escrow::error::EscrowError;
use ln_usdt_escrow::escrow::{
    authorize_claim, authorize_refund, process_claim, process_init, process_refund, require_active, InitArgs,
    InitPlan,
};
use ln_usdt_escrow::fees::{fee_amount, split_deposit};
use ln_usdt_escrow::policy::{process_init_policy, process_set_policy, process_withdraw_fees, resolve_withdraw_amount, PolicyKind};
use ln_usdt_escrow::state::{ConfigState, EscrowState, STATUS_ACTIVE, STATUS_CLAIMED, STATUS_REFUNDED};
use solana_program::pubkey::Pubkey;

const PROGRAM: [u8; 32] = [42u8; 32];
const DEPOSITOR: [u8; 32] = [1u8; 32];
const RECIPIENT: [u8; 32] = [2u8; 32];
const PLATFORM: [u8; 32] = [3u8; 32];
const TRADER: [u8; 32] = [4u8; 32];
const MINT: [u8; 32] = [5u8; 32];
const PREIMAGE: [u8; 32] = [6u8; 32];

fn acct(key: [u8; 32], is_signer: bool, is_writable: bool, data: Vec<u8>) -> AccountView {
    AccountView { key, is_signer, is_writable, data }
}

fn token_data(mint: [u8; 32], owner: [u8; 32], amount: u64) -> Vec<u8> {
    let mut d = vec![0u8; 165];
    d[0..32].copy_from_slice(&mint);
    d[32..64].copy_from_slice(&owner);
    d[64..72].copy_from_slice(&amount.to_le_bytes());
    d[108] = 1;
    d
}

fn pk(k: [u8; 32]) -> Pubkey {
    Pubkey::new_from_array(k)
}

fn ata(owner: [u8; 32], mint: [u8; 32]) -> [u8; 32] {
    spl_associated_token_account::get_associated_token_address(&pk(owner), &pk(mint)).to_bytes()
}

fn platform_address() -> ([u8; 32], u8) {
    let (k, b) = Pubkey::find_program_address(&[b"config"], &pk(PROGRAM));
    (k.to_bytes(), b)
}

fn trade_address(collector: [u8; 32]) -> ([u8; 32], u8) {
    let (k, b) = Pubkey::find_program_address(&[b"trade_config", &collector], &pk(PROGRAM));
    (k.to_bytes(), b)
}

fn payment_hash() -> [u8; 32] {
    solana_program::hash::hash(&PREIMAGE).to_bytes()
}

fn escrow_address() -> ([u8; 32], u8) {
    let (k, b) = Pubkey::find_program_address(&[b"escrow", &payment_hash()], &pk(PROGRAM));
    (k.to_bytes(), b)
}

fn policy_record(collector: [u8; 32], fee_bps: u16, bump: u8) -> Vec<u8> {
    ConfigState { v: 1, authority: collector, fee_collector: collector, fee_bps, bump }.encode()
}

fn init_args(amount: u64, platform_bps: u16, trade_bps: u16) -> InitArgs {
    InitArgs {
        payment_hash: payment_hash(),
        recipient: RECIPIENT,
        refund: DEPOSITOR,
        refund_after: 1_000,
        amount,
        expected_platform_fee_bps: platform_bps,
        expected_trade_fee_bps: trade_bps,
        trade_fee_collector: TRADER,
    }
}

fn init_accounts(platform_bps: u16, trade_bps: u16, balance: u64) -> Vec<AccountView> {
    let (escrow, _) = escrow_address();
    let (cfg, cfg_bump) = platform_address();
    let (tcfg, tcfg_bump) = trade_address(TRADER);
    vec![
        acct(DEPOSITOR, true, true, vec![]),
        acct([11u8; 32], false, true, token_data(MINT, DEPOSITOR, balance)),
        acct(escrow, false, true, vec![]),
        acct(ata(escrow, MINT), false, true, vec![]),
        acct(MINT, false, false, vec![]),
        acct([12u8; 32], false, false, vec![]),
        acct([13u8; 32], false, false, vec![]),
        acct([14u8; 32], false, false, vec![]),
        acct([15u8; 32], false, false, vec![]),
        acct(cfg, false, false, policy_record(PLATFORM, platform_bps, cfg_bump)),
        acct(ata(cfg, MINT), false, true, vec![]),
        acct(tcfg, false, false, policy_record(TRADER, trade_bps, tcfg_bump)),
        acct(ata(tcfg, MINT), false, true, vec![]),
    ]
}

fn created(amount: u64, platform_bps: u16, trade_bps: u16) -> InitPlan {
    process_init(&PROGRAM, &init_accounts(platform_bps, trade_bps, u64::MAX), &init_args(amount, platform_bps, trade_bps))
        .expect("create goes through")
}

fn claim_accounts(record: &EscrowState, signer: [u8; 32]) -> Vec<AccountView> {
    let (escrow, _) = escrow_address();
    let (cfg, _) = platform_address();
    let (tcfg, _) = trade_address(TRADER);
    vec![
        acct(signer, true, false, vec![]),
        acct(escrow, false, true, record.encode()),
        acct(ata(escrow, MINT), false, true, token_data(MINT, escrow, 1_015_000)),
        acct([21u8; 32], false, true, token_data(MINT, signer, 0)),
        acct(ata(cfg, MINT), false, true, token_data(MINT, cfg, 0)),
        acct(ata(tcfg, MINT), false, true, token_data(MINT, tcfg, 0)),
        acct([13u8; 32], false, false, vec![]),
    ]
}

fn refund_accounts(record: &EscrowState, signer: [u8; 32]) -> Vec<AccountView> {
    let (escrow, _) = escrow_address();
    vec![
        acct(signer, true, false, vec![]),
        acct(escrow, false, true, record.encode()),
        acct(ata(escrow, MINT), false, true, token_data(MINT, escrow, 1_015_000)),
        acct([22u8; 32], false, true, token_data(MINT, signer, 0)),
        acct([13u8; 32], false, false, vec![]),
        acct([16u8; 32], false, false, vec![]),
    ]
}

fn withdraw_accounts(kind: PolicyKind, collector: [u8; 32], balance: u64) -> Vec<AccountView> {
    let (cfg, bump) = match kind {
        PolicyKind::Platform => platform_address(),
        PolicyKind::Trade => trade_address(collector),
    };
    vec![
        acct(collector, true, false, vec![]),
        acct(cfg, false, false, policy_record(collector, 100, bump)),
        acct(ata(cfg, MINT), false, true, token_data(MINT, cfg, balance)),
        acct([23u8; 32], false, true, token_data(MINT, collector, 0)),
        acct([13u8; 32], false, false, vec![]),
    ]
}

#[test]
fn fee_example_from_one_million() {
    assert_eq!(fee_amount(1_000_000, 100), 10_000);
    assert_eq!(fee_amount(1_000_000, 50), 5_000);
    assert_eq!(fee_amount(9_999, 1), 0);
    assert_eq!(fee_amount(u64::MAX, 10_000), u64::MAX);
    let s = split_deposit(1_000_000, 100, 50).unwrap();
    assert_eq!(s.net_amount, 1_000_000);
    assert_eq!(s.platform_fee_amount, 10_000);
    assert_eq!(s.trade_fee_amount, 5_000);
    assert_eq!(s.total_amount, 1_015_000);
}

#[test]
fn deposit_total_overflow_is_none() {
    assert!(split_deposit(u64::MAX, 100, 0).is_none());
    assert!(split_deposit(u64::MAX, 0, 0).is_some());
}

#[test]
fn derived_addresses_match_the_ledger() {
    assert_eq!(config_pda(&PROGRAM), Some(platform_address()));
    assert_eq!(trade_config_pda(&PROGRAM, &TRADER), Some(trade_address(TRADER)));
    assert_eq!(pda_for_hash(&PROGRAM, &payment_hash()), Some(escrow_address()));
    assert_ne!(trade_config_pda(&PROGRAM, &TRADER), trade_config_pda(&PROGRAM, &PLATFORM));
}

#[test]
fn create_draws_amount_plus_fees() {
    let plan = created(1_000_000, 100, 50);
    assert_eq!(plan.total_amount, 1_015_000);
    assert_eq!(plan.state.net_amount, 1_000_000);
    assert_eq!(plan.state.platform_fee_amount, 10_000);
    assert_eq!(plan.state.trade_fee_amount, 5_000);
    assert_eq!(plan.state.platform_fee_bps, 100);
    assert_eq!(plan.state.trade_fee_bps, 50);
    assert_eq!(plan.state.platform_fee_collector, PLATFORM);
    assert_eq!(plan.state.trade_fee_collector, TRADER);
    assert_eq!(plan.state.status, STATUS_ACTIVE);
    assert_eq!(plan.state.v, 3);
    assert_eq!(plan.state.bump, escrow_address().1);
    assert_eq!(plan.state.vault, ata(escrow_address().0, MINT));
    assert!(plan.create_vault && plan.create_platform_fee_vault && plan.create_trade_fee_vault);
}

#[test]
fn create_with_stale_expected_rate_is_refused() {
    let accounts = init_accounts(100, 50, u64::MAX);
    let r = process_init(&PROGRAM, &accounts, &init_args(1_000_000, 101, 50));
    assert!(matches!(r, Err(EscrowError::FeeMismatch)));
    let r = process_init(&PROGRAM, &accounts, &init_args(1_000_000, 100, 49));
    assert!(matches!(r, Err(EscrowError::FeeMismatch)));
}

#[test]
fn create_over_combined_cap_is_refused() {
    let accounts = init_accounts(2000, 600, u64::MAX);
    let r = process_init(&PROGRAM, &accounts, &init_args(1_000, 2000, 600));
    assert!(matches!(r, Err(EscrowError::FeeTooHigh)));
}

#[test]
fn create_needs_enough_balance() {
    let accounts = init_accounts(100, 50, 1_014_999);
    let r = process_init(&PROGRAM, &accounts, &init_args(1_000_000, 100, 50));
    assert!(matches!(r, Err(EscrowError::InvalidTokenAccount)));
    let accounts = init_accounts(100, 50, 1_015_000);
    assert!(process_init(&PROGRAM, &accounts, &init_args(1_000_000, 100, 50)).is_ok());
}

#[test]
fn create_twice_is_refused() {
    let mut accounts = init_accounts(100, 50, u64::MAX);
    accounts[2].data = vec![0u8; 263];
    let r = process_init(&PROGRAM, &accounts, &init_args(1_000_000, 100, 50));
    assert!(matches!(r, Err(EscrowError::AlreadyInitialized)));
}

#[test]
fn create_checks_addresses_and_signer() {
    let mut accounts = init_accounts(100, 50, u64::MAX);
    accounts[0].is_signer = false;
    assert!(matches!(process_init(&PROGRAM, &accounts, &init_args(1, 100, 50)), Err(EscrowError::InvalidSigner)));
    let mut accounts = init_accounts(100, 50, u64::MAX);
    accounts[2].key = [99u8; 32];
    assert!(matches!(process_init(&PROGRAM, &accounts, &init_args(1, 100, 50)), Err(EscrowError::InvalidEscrowPda)));
    let mut accounts = init_accounts(100, 50, u64::MAX);
    accounts[9].key = [99u8; 32];
    assert!(matches!(process_init(&PROGRAM, &accounts, &init_args(1, 100, 50)), Err(EscrowError::InvalidConfigPda)));
    let mut accounts = init_accounts(100, 50, u64::MAX);
    accounts[9].data = vec![];
    assert!(matches!(process_init(&PROGRAM, &accounts, &init_args(1, 100, 50)), Err(EscrowError::InvalidConfigState)));
    let mut accounts = init_accounts(100, 50, u64::MAX);
    accounts[3].key = [99u8; 32];
    assert!(matches!(process_init(&PROGRAM, &accounts, &init_args(1, 100, 50)), Err(EscrowError::InvalidVaultAta)));
    let mut accounts = init_accounts(100, 50, u64::MAX);
    accounts[11].key = [99u8; 32];
    assert!(matches!(process_init(&PROGRAM, &accounts, &init_args(1, 100, 50)), Err(EscrowError::InvalidTradeConfigPda)));
    let mut accounts = init_accounts(100, 50, u64::MAX);
    accounts[11].data[0] = 2;
    assert!(matches!(process_init(&PROGRAM, &accounts, &init_args(1, 100, 50)), Err(EscrowError::InvalidTradeConfigState)));
    let mut accounts = init_accounts(100, 50, u64::MAX);
    accounts[10].key = [99u8; 32];
    assert!(matches!(process_init(&PROGRAM, &accounts, &init_args(1, 100, 50)), Err(EscrowError::InvalidFeeVaultAta)));
    let mut accounts = init_accounts(100, 50, u64::MAX);
    accounts[12].key = [99u8; 32];
    assert!(matches!(process_init(&PROGRAM, &accounts, &init_args(1, 100, 50)), Err(EscrowError::InvalidTradeFeeVaultAta)));
    let mut accounts = init_accounts(100, 50, u64::MAX);
    accounts[1].is_writable = false;
    assert!(matches!(process_init(&PROGRAM, &accounts, &init_args(1, 100, 50)), Err(EscrowError::InvalidAccountData)));
    let accounts = init_accounts(100, 50, u64::MAX);
    assert!(matches!(process_init(&PROGRAM, &accounts[..12], &init_args(1, 100, 50)), Err(EscrowError::NotEnoughAccountKeys)));
}

#[test]
fn claim_pays_recipient_and_fees() {
    let plan = created(1_000_000, 100, 50);
    let claim = process_claim(&PROGRAM, &claim_accounts(&plan.state, RECIPIENT), &PREIMAGE).expect("claim goes through");
    assert_eq!(claim.net_amount, 1_000_000);
    assert_eq!(claim.platform_fee_amount, 10_000);
    assert_eq!(claim.trade_fee_amount, 5_000);
    assert_eq!(claim.state.status, STATUS_CLAIMED);
    assert_eq!(claim.state.net_amount + claim.state.platform_fee_amount + claim.state.trade_fee_amount, 0);
}

#[test]
fn claim_with_wrong_preimage_is_refused() {
    let plan = created(1_000_000, 100, 50);
    let r = process_claim(&PROGRAM, &claim_accounts(&plan.state, RECIPIENT), &[7u8; 32]);
    assert!(matches!(r, Err(EscrowError::InvalidPreimage)));
    // The payment hash itself is no preimage of itself.
    let r = process_claim(&PROGRAM, &claim_accounts(&plan.state, RECIPIENT), &payment_hash());
    assert!(matches!(r, Err(EscrowError::InvalidPreimage)));
}

#[test]
fn claim_by_other_signer_is_refused() {
    let plan = created(1_000_000, 100, 50);
    let r = process_claim(&PROGRAM, &claim_accounts(&plan.state, DEPOSITOR), &PREIMAGE);
    assert!(matches!(r, Err(EscrowError::InvalidSigner)));
    let mut accounts = claim_accounts(&plan.state, RECIPIENT);
    accounts[0].is_signer = false;
    assert!(matches!(process_claim(&PROGRAM, &accounts, &PREIMAGE), Err(EscrowError::InvalidSigner)));
}

#[test]
fn claim_checks_fee_vaults_of_the_snapshot() {
    let plan = created(1_000_000, 100, 50);
    let mut accounts = claim_accounts(&plan.state, RECIPIENT);
    let (other_cfg, _) = trade_address(PLATFORM);
    accounts[5] = acct(ata(other_cfg, MINT), false, true, token_data(MINT, other_cfg, 0));
    assert!(matches!(process_claim(&PROGRAM, &accounts, &PREIMAGE), Err(EscrowError::InvalidTradeFeeVaultAta)));
    let mut accounts = claim_accounts(&plan.state, RECIPIENT);
    accounts[4].key = [99u8; 32];
    assert!(matches!(process_claim(&PROGRAM, &accounts, &PREIMAGE), Err(EscrowError::InvalidFeeVaultAta)));
    let mut accounts = claim_accounts(&plan.state, RECIPIENT);
    accounts[2].key = [99u8; 32];
    assert!(matches!(process_claim(&PROGRAM, &accounts, &PREIMAGE), Err(EscrowError::InvalidVaultAta)));
    let mut accounts = claim_accounts(&plan.state, RECIPIENT);
    accounts[3].data = token_data([98u8; 32], RECIPIENT, 0);
    assert!(matches!(process_claim(&PROGRAM, &accounts, &PREIMAGE), Err(EscrowError::InvalidTokenAccount)));
}

#[test]
fn claim_after_policy_update_pays_rates_at_creation() {
    let plan = created(1_000_000, 100, 50);
    let (cfg, cfg_bump) = platform_address();
    let set_accounts = vec![acct(PLATFORM, true, false, vec![]), acct(cfg, false, true, policy_record(PLATFORM, 100, cfg_bump))];
    let updated = process_set_policy(PolicyKind::Platform, &PROGRAM, &set_accounts, &PLATFORM, 2000).unwrap();
    assert_eq!(updated.fee_bps, 2000);
    let claim = process_claim(&PROGRAM, &claim_accounts(&plan.state, RECIPIENT), &PREIMAGE).unwrap();
    assert_eq!(claim.platform_fee_amount, 10_000);
    assert_eq!(claim.trade_fee_amount, 5_000);
}

#[test]
fn refund_after_deadline_returns_everything() {
    let plan = created(1_000_000, 100, 50);
    let refund = process_refund(&PROGRAM, &refund_accounts(&plan.state, DEPOSITOR), 1_000).expect("refund goes through");
    assert_eq!(refund.total_amount, 1_015_000);
    assert_eq!(refund.state.status, STATUS_REFUNDED);
    assert_eq!(refund.state.net_amount, 0);
}

#[test]
fn refund_before_deadline_is_refused() {
    let plan = created(1_000_000, 100, 50);
    let r = process_refund(&PROGRAM, &refund_accounts(&plan.state, DEPOSITOR), 999);
    assert!(matches!(r, Err(EscrowError::TooEarly)));
}

#[test]
fn refund_by_other_signer_is_refused() {
    let plan = created(1_000_000, 100, 50);
    let r = process_refund(&PROGRAM, &refund_accounts(&plan.state, RECIPIENT), 5_000);
    assert!(matches!(r, Err(EscrowError::InvalidSigner)));
}

#[test]
fn settled_escrow_cannot_settle_again() {
    let plan = created(1_000_000, 100, 50);
    let claim = process_claim(&PROGRAM, &claim_accounts(&plan.state, RECIPIENT), &PREIMAGE).unwrap();
    assert!(matches!(process_claim(&PROGRAM, &claim_accounts(&claim.state, RECIPIENT), &PREIMAGE), Err(EscrowError::NotActive)));
    assert!(matches!(process_refund(&PROGRAM, &refund_accounts(&claim.state, DEPOSITOR), 5_000), Err(EscrowError::NotActive)));
    let refund = process_refund(&PROGRAM, &refund_accounts(&plan.state, DEPOSITOR), 5_000).unwrap();
    assert!(matches!(process_claim(&PROGRAM, &claim_accounts(&refund.state, RECIPIENT), &PREIMAGE), Err(EscrowError::NotActive)));
    assert!(matches!(process_refund(&PROGRAM, &refund_accounts(&refund.state, DEPOSITOR), 5_000), Err(EscrowError::NotActive)));
    assert!(require_active(&refund.state).is_err());
    assert!(require_active(&plan.state).is_ok());
}

#[test]
fn authorization_decisions() {
    let plan = created(1_000_000, 100, 50);
    let s = plan.state;
    let h = payment_hash();
    assert!(authorize_claim(&s, &RECIPIENT, &s.vault, &h).is_ok());
    assert_eq!(authorize_claim(&s, &RECIPIENT, &s.vault, &PREIMAGE), Err(EscrowError::InvalidPreimage));
    assert_eq!(authorize_claim(&s, &DEPOSITOR, &s.vault, &h), Err(EscrowError::InvalidSigner));
    assert_eq!(authorize_claim(&s, &RECIPIENT, &[0u8; 32], &h), Err(EscrowError::InvalidVaultAta));
    assert!(authorize_refund(&s, &DEPOSITOR, &s.vault, 1_000).is_ok());
    assert_eq!(authorize_refund(&s, &DEPOSITOR, &s.vault, 999), Err(EscrowError::TooEarly));
    assert_eq!(authorize_refund(&s, &RECIPIENT, &s.vault, 1_000), Err(EscrowError::InvalidSigner));
}

#[test]
fn policy_create_by_its_collector() {
    let (cfg, bump) = platform_address();
    let accounts = vec![
        acct(PLATFORM, true, true, vec![]),
        acct(cfg, false, true, vec![]),
        acct([12u8; 32], false, false, vec![]),
        acct([15u8; 32], false, false, vec![]),
    ];
    let c = process_init_policy(PolicyKind::Platform, &PROGRAM, &accounts, &PLATFORM, 2500).unwrap();
    assert_eq!(c.authority, PLATFORM);
    assert_eq!(c.fee_collector, PLATFORM);
    assert_eq!(c.fee_bps, 2500);
    assert_eq!(c.bump, bump);
    assert_eq!(c.v, 1);
    let r = process_init_policy(PolicyKind::Platform, &PROGRAM, &accounts, &PLATFORM, 2501);
    assert!(matches!(r, Err(EscrowError::FeeTooHigh)));
    let r = process_init_policy(PolicyKind::Platform, &PROGRAM, &accounts, &TRADER, 10);
    assert!(matches!(r, Err(EscrowError::InvalidSigner)));
    let r = process_init_policy(PolicyKind::Trade, &PROGRAM, &accounts, &PLATFORM, 10);
    assert!(matches!(r, Err(EscrowError::InvalidTradeConfigPda)));
    let mut again = accounts.clone();
    again[1].data = c.encode();
    let r = process_init_policy(PolicyKind::Platform, &PROGRAM, &again, &PLATFORM, 10);
    assert!(matches!(r, Err(EscrowError::AlreadyInitialized)));
}

#[test]
fn trade_policy_create_and_update() {
    let (tcfg, bump) = trade_address(TRADER);
    let accounts = vec![
        acct(TRADER, true, true, vec![]),
        acct(tcfg, false, true, vec![]),
        acct([12u8; 32], false, false, vec![]),
        acct([15u8; 32], false, false, vec![]),
    ];
    let c = process_init_policy(PolicyKind::Trade, &PROGRAM, &accounts, &TRADER, 75).unwrap();
    assert_eq!(c.bump, bump);
    let set_accounts = vec![acct(TRADER, true, false, vec![]), acct(tcfg, false, true, c.encode())];
    let u = process_set_policy(PolicyKind::Trade, &PROGRAM, &set_accounts, &TRADER, 0).unwrap();
    assert_eq!(u.fee_bps, 0);
    assert_eq!(u.authority, TRADER);
    let mut stale = set_accounts.clone();
    stale[1].data[67] = stale[1].data[67].wrapping_add(1);
    let r = process_set_policy(PolicyKind::Trade, &PROGRAM, &stale, &TRADER, 0);
    assert!(matches!(r, Err(EscrowError::InvalidTradeConfigState)));
    let r = process_set_policy(PolicyKind::Trade, &PROGRAM, &set_accounts, &TRADER, 3000);
    assert!(matches!(r, Err(EscrowError::FeeTooHigh)));
}

#[test]
fn policy_update_by_other_authority_is_refused() {
    let (cfg, bump) = platform_address();
    let record = ConfigState { v: 1, authority: PLATFORM, fee_collector: TRADER, fee_bps: 10, bump }.encode();
    let accounts = vec![acct(TRADER, true, false, vec![]), acct(cfg, false, true, record)];
    let r = process_set_policy(PolicyKind::Platform, &PROGRAM, &accounts, &TRADER, 20);
    assert!(matches!(r, Err(EscrowError::InvalidSigner)));
    let r = process_set_policy(PolicyKind::Platform, &PROGRAM, &accounts[..1], &TRADER, 20);
    assert!(matches!(r, Err(EscrowError::NotEnoughAccountKeys)));
}

#[test]
fn withdraw_zero_drains_balance() {
    let p = process_withdraw_fees(PolicyKind::Platform, &PROGRAM, &withdraw_accounts(PolicyKind::Platform, PLATFORM, 12_345), 0).unwrap();
    assert_eq!(p.amount, 12_345);
    assert_eq!(p.bump, platform_address().1);
    let p = process_withdraw_fees(PolicyKind::Trade, &PROGRAM, &withdraw_accounts(PolicyKind::Trade, TRADER, 500), 200).unwrap();
    assert_eq!(p.amount, 200);
}

#[test]
fn withdraw_over_balance_is_refused() {
    let r = process_withdraw_fees(PolicyKind::Trade, &PROGRAM, &withdraw_accounts(PolicyKind::Trade, TRADER, 500), 501);
    assert!(matches!(r, Err(EscrowError::InvalidInstruction)));
    assert_eq!(resolve_withdraw_amount(501, 500), Err(EscrowError::InvalidInstruction));
    assert_eq!(resolve_withdraw_amount(0, 500), Ok(500));
    assert_eq!(resolve_withdraw_amount(500, 500), Ok(500));
}

#[test]
fn withdraw_from_empty_vault_is_a_no_op() {
    let p = process_withdraw_fees(PolicyKind::Platform, &PROGRAM, &withdraw_accounts(PolicyKind::Platform, PLATFORM, 0), 0).unwrap();
    assert_eq!(p.amount, 0);
}

#[test]
fn withdraw_checks_vault_and_destination() {
    let mut accounts = withdraw_accounts(PolicyKind::Platform, PLATFORM, 10);
    accounts[2].key = [99u8; 32];
    let r = process_withdraw_fees(PolicyKind::Platform, &PROGRAM, &accounts, 0);
    assert!(matches!(r, Err(EscrowError::InvalidFeeVaultAta)));
    let mut accounts = withdraw_accounts(PolicyKind::Trade, TRADER, 10);
    accounts[2].key = [99u8; 32];
    let r = process_withdraw_fees(PolicyKind::Trade, &PROGRAM, &accounts, 0);
    assert!(matches!(r, Err(EscrowError::InvalidTradeFeeVaultAta)));
    let mut accounts = withdraw_accounts(PolicyKind::Platform, PLATFORM, 10);
    accounts[3].data = token_data(MINT, TRADER, 0);
    let r = process_withdraw_fees(PolicyKind::Platform, &PROGRAM, &accounts, 0);
    assert!(matches!(r, Err(EscrowError::InvalidTokenAccount)));
    let accounts = withdraw_accounts(PolicyKind::Platform, PLATFORM, 10);
    let mut by_other = accounts.clone();
    by_other[0].key = TRADER;
    let r = process_withdraw_fees(PolicyKind::Platform, &PROGRAM, &by_other, 0);
    assert!(matches!(r, Err(EscrowError::InvalidSigner)));
}

#[test]
fn malformed_token_accounts_are_refused() {
    let plan = created(1_000_000, 100, 50);
    let mut accounts = claim_accounts(&plan.state, RECIPIENT);
    accounts[3].data.pop();
    assert!(matches!(process_claim(&PROGRAM, &accounts, &PREIMAGE), Err(EscrowError::InvalidTokenAccount)));
    let mut accounts = claim_accounts(&plan.state, RECIPIENT);
    accounts[3].data[108] = 0;
    assert!(matches!(process_claim(&PROGRAM, &accounts, &PREIMAGE), Err(EscrowError::InvalidTokenAccount)));
    let mut accounts = claim_accounts(&plan.state, RECIPIENT);
    accounts[3].data[72] = 2;
    assert!(matches!(process_claim(&PROGRAM, &accounts, &PREIMAGE), Err(EscrowError::InvalidTokenAccount)));
}

#[test]
fn claim_checks_escrow_address_and_vault_owner() {
    let plan = created(1_000_000, 100, 50);
    let mut record = plan.state;
    record.bump = record.bump.wrapping_sub(1);
    let mut accounts = claim_accounts(&plan.state, RECIPIENT);
    accounts[1].data = record.encode();
    assert!(matches!(process_claim(&PROGRAM, &accounts, &PREIMAGE), Err(EscrowError::InvalidEscrowPda)));
    let mut accounts = claim_accounts(&plan.state, RECIPIENT);
    accounts[2].data = token_data(MINT, RECIPIENT, 1_015_000);
    assert!(matches!(process_claim(&PROGRAM, &accounts, &PREIMAGE), Err(EscrowError::InvalidTokenAccount)));
    let mut accounts = claim_accounts(&plan.state, RECIPIENT);
    accounts[1].data.pop();
    assert!(matches!(process_claim(&PROGRAM, &accounts, &PREIMAGE), Err(EscrowError::InvalidAccountData)));
}

#[test]
fn zero_rate_escrow_pays_no_fees() {
    let plan = created(777, 0, 0);
    assert_eq!(plan.total_amount, 777);
    let claim = process_claim(&PROGRAM, &claim_accounts(&plan.state, RECIPIENT), &PREIMAGE).unwrap();
    assert_eq!(claim.net_amount, 777);
    assert_eq!(claim.platform_fee_amount, 0);
    assert_eq!(claim.trade_fee_amount, 0);
}

#[test]
fn fee_rounds_down() {
    let plan = created(199, 100, 50);
    assert_eq!(plan.state.platform_fee_amount, 1);
    assert_eq!(plan.state.trade_fee_amount, 0);
    assert_eq!(plan.total_amount, 200);
}

#[test]
fn policy_update_may_name_another_collector() {
    let (cfg, bump) = platform_address();
    let accounts = vec![acct(PLATFORM, true, false, vec![]), acct(cfg, false, true, policy_record(PLATFORM, 100, bump))];
    let u = process_set_policy(PolicyKind::Platform, &PROGRAM, &accounts, &TRADER, 100).unwrap();
    assert_eq!(u.fee_collector, TRADER);
    assert_eq!(u.authority, PLATFORM);
    let mut w = withdraw_accounts(PolicyKind::Platform, PLATFORM, 10);
    w[1].data = u.encode();
    let r = process_withdraw_fees(PolicyKind::Platform, &PROGRAM, &w, 0);
    assert!(matches!(r, Err(EscrowError::InvalidSigner)));
}

#[test]
fn associated_accounts_match_the_token_ledger() {
    let (cfg, _) = platform_address();
    let expected = ata(cfg, MINT);
    assert!(is_associated_account(&cfg, &MINT, &expected));
    assert!(!is_associated_account(&cfg, &MINT, &cfg));
    assert!(!is_associated_account(&MINT, &cfg, &expected));
}
