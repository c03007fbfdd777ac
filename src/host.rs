//! The calls this library makes into the ledger's own crates. Each result
//! that takes more than a few lines to state is given a name here.
use vstd::prelude::*;
use crate::codec::{field, le_value};
use solana_program::program_pack::Pack;
use solana_program::pubkey::Pubkey;

verus! {

/// The SHA-256 digest of a byte string.
pub uninterp spec fn hash_of(data: Seq<u8>) -> Seq<u8>;

/// The program-derived address and bump for `seeds` under `program_id`, or
/// `None` when the seeds are unusable or no bump yields an address.
pub uninterp spec fn program_address_of(seeds: Seq<Seq<u8>>, program_id: Seq<u8>) -> Option<(Seq<u8>, u8)>;

/// The canonical associated token account of `wallet` for `mint`, or `None`
/// when no bump yields an address.
pub uninterp spec fn associated_address_of(wallet: Seq<u8>, mint: Seq<u8>) -> Option<Seq<u8>>;

/// The mint, owner and balance that a token account's bytes hold, or `None`
/// when they are not an initialized token account.
pub uninterp spec fn token_account_of(data: Seq<u8>) -> Option<(Seq<u8>, Seq<u8>, u64)>;

/// What the library reads of a token account.
#[derive(Debug, Clone, Copy)]
pub struct TokenAccount {
    pub mint: [u8; 32],
    pub owner: [u8; 32],
    pub amount: u64,
}

pub open spec fn address_view(r: Option<([u8; 32], u8)>) -> Option<(Seq<u8>, u8)> {
    match r {
        Some(p) => Some((p.0@, p.1)),
        None => None,
    }
}

pub open spec fn token_view(r: Option<TokenAccount>) -> Option<(Seq<u8>, Seq<u8>, u64)> {
    match r {
        Some(t) => Some((t.mint@, t.owner@, t.amount)),
        None => None,
    }
}

/// Relies on `solana_program::hash::hash`: the SHA-256 digest of the bytes,
/// which depends on them alone.
#[verifier::external_body]
pub(crate) fn sha256(data: &[u8]) -> (r: [u8; 32])
    ensures
        r@ == hash_of(data@),
{
    solana_program::hash::hash(data).to_bytes()
}

/// Relies on `Pubkey::try_find_program_address`: a deterministic search over
/// bumps 255 down to 1 that returns the first off-curve address, or `None`.
#[verifier::external_body]
pub(crate) fn try_find_program_address(seeds: &Vec<Vec<u8>>, program_id: &[u8; 32]) -> (r: Option<([u8; 32], u8)>)
    ensures
        address_view(r) == program_address_of(seeds.deep_view(), program_id@),
{
    let refs: Vec<&[u8]> = seeds.iter().map(|s| s.as_slice()).collect();
    Pubkey::try_find_program_address(&refs, &Pubkey::new_from_array(*program_id)).map(|(k, b)| (k.to_bytes(), b))
}

/// Relies on the derivation behind
/// `spl_associated_token_account::get_associated_token_address`: the
/// program-derived address of the seeds (wallet, `spl_token::id()`, mint)
/// under `spl_associated_token_account::id()`. It is found with the
/// non-panicking `Pubkey::try_find_program_address`, which gives `None` where
/// the crate's own function would panic.
#[verifier::external_body]
pub(crate) fn associated_token_address(wallet: &[u8; 32], mint: &[u8; 32]) -> (r: Option<[u8; 32]>)
    ensures
        associated_address_of(wallet@, mint@) == (match r {
            Some(k) => Some(k@),
            None => None::<Seq<u8>>,
        }),
{
    let token_program = spl_token::id().to_bytes();
    Pubkey::try_find_program_address(
        &[wallet.as_slice(), token_program.as_slice(), mint.as_slice()],
        &spl_associated_token_account::id(),
    ).map(|(k, _)| k.to_bytes())
}

/// Relies on `spl_token::state::Account::unpack`: it accepts exactly 165
/// bytes of an initialized account, whose first 72 bytes are the mint, the
/// owner and the little-endian balance.
#[verifier::external_body]
pub(crate) fn unpack_token_account(data: &[u8]) -> (r: Option<TokenAccount>)
    ensures
        token_view(r) == token_account_of(data@),
        r is Some ==> data@.len() == 165,
        r is Some ==> r->Some_0.mint@ == field(data@, 0, 32) && r->Some_0.owner@ == field(data@, 32, 32)
            && r->Some_0.amount as nat == le_value(field(data@, 64, 8)),
{
    match spl_token::state::Account::unpack(data) {
        Ok(a) => Some(TokenAccount { mint: a.mint.to_bytes(), owner: a.owner.to_bytes(), amount: a.amount }),
        Err(_) => None,
    }
}

} // verus!
