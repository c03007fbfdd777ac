//! Deterministic addresses: the seeds of each record kind, and the check that
//! two addresses are the same.
use vstd::prelude::*;
use crate::host::{address_view, associated_address_of, associated_token_address, program_address_of, try_find_program_address};

verus! {

/// The seed tag of escrow records, the bytes of "escrow".
pub open spec fn escrow_tag() -> Seq<u8> {
    seq![101u8, 115, 99, 114, 111, 119]
}

/// The seed tag of the platform policy, the bytes of "config".
pub open spec fn config_tag() -> Seq<u8> {
    seq![99u8, 111, 110, 102, 105, 103]
}

/// The seed tag of trade policies, the bytes of "trade_config".
pub open spec fn trade_config_tag() -> Seq<u8> {
    seq![116u8, 114, 97, 100, 101, 95, 99, 111, 110, 102, 105, 103]
}

pub open spec fn escrow_seeds(payment_hash: Seq<u8>) -> Seq<Seq<u8>> {
    seq![escrow_tag(), payment_hash]
}

pub open spec fn config_seeds() -> Seq<Seq<u8>> {
    seq![config_tag()]
}

pub open spec fn trade_config_seeds(fee_collector: Seq<u8>) -> Seq<Seq<u8>> {
    seq![trade_config_tag(), fee_collector]
}

pub fn escrow_seed() -> (r: Vec<u8>)
    ensures
        r@ == escrow_tag(),
{
    let r: Vec<u8> = vec![101u8, 115, 99, 114, 111, 119];
    assert(r@ =~= escrow_tag());
    r
}

pub fn config_seed() -> (r: Vec<u8>)
    ensures
        r@ == config_tag(),
{
    let r: Vec<u8> = vec![99u8, 111, 110, 102, 105, 103];
    assert(r@ =~= config_tag());
    r
}

pub fn trade_config_seed() -> (r: Vec<u8>)
    ensures
        r@ == trade_config_tag(),
{
    let r: Vec<u8> = vec![116u8, 114, 97, 100, 101, 95, 99, 111, 110, 102, 105, 103];
    assert(r@ =~= trade_config_tag());
    r
}

/// Whether two 32-byte identities are the same.
pub fn same_key(a: &[u8; 32], b: &[u8; 32]) -> (r: bool)
    ensures
        r == (a@ == b@),
{
    let mut i: usize = 0;
    while i < 32
        invariant
            i <= 32,
            a@.len() == 32,
            b@.len() == 32,
            forall|j: int| 0 <= j < i ==> a@[j] == b@[j],
        decreases 32 - i,
    {
        if a[i] != b[i] {
            return false;
        }
        i = i + 1;
    }
    assert(a@ =~= b@);
    true
}

fn key_bytes(k: &[u8; 32]) -> (r: Vec<u8>)
    ensures
        r@ == k@,
{
    let mut out: Vec<u8> = Vec::new();
    let mut i: usize = 0;
    while i < 32
        invariant
            i <= 32,
            k@.len() == 32,
            out@ == k@.subrange(0, i as int),
        decreases 32 - i,
    {
        out.push(k[i]);
        assert(out@ =~= k@.subrange(0, i + 1));
        i = i + 1;
    }
    assert(k@.subrange(0, 32) =~= k@);
    out
}

fn keyed_seeds(tag: Vec<u8>, k: &[u8; 32]) -> (r: Vec<Vec<u8>>)
    ensures
        r.deep_view() == seq![tag@, k@],
{
    let kb = key_bytes(k);
    assert(tag.deep_view() =~= tag@);
    assert(kb.deep_view() =~= kb@);
    let mut seeds: Vec<Vec<u8>> = Vec::new();
    seeds.push(tag);
    seeds.push(kb);
    assert(seeds.deep_view() =~= seq![tag@, k@]);
    seeds
}

/// The escrow address of a payment hash, with its bump.
pub fn pda_for_hash(program_id: &[u8; 32], payment_hash: &[u8; 32]) -> (r: Option<([u8; 32], u8)>)
    ensures
        address_view(r) == program_address_of(escrow_seeds(payment_hash@), program_id@),
{
    try_find_program_address(&keyed_seeds(escrow_seed(), payment_hash), program_id)
}

/// The address of the platform policy, with its bump.
pub fn config_pda(program_id: &[u8; 32]) -> (r: Option<([u8; 32], u8)>)
    ensures
        address_view(r) == program_address_of(config_seeds(), program_id@),
{
    let tag = config_seed();
    assert(tag.deep_view() =~= tag@);
    let mut seeds: Vec<Vec<u8>> = Vec::new();
    seeds.push(tag);
    assert(seeds.deep_view() =~= config_seeds());
    try_find_program_address(&seeds, program_id)
}

/// The address of the trade policy of a fee collector, with its bump.
pub fn trade_config_pda(program_id: &[u8; 32], fee_collector: &[u8; 32]) -> (r: Option<([u8; 32], u8)>)
    ensures
        address_view(r) == program_address_of(trade_config_seeds(fee_collector@), program_id@),
{
    try_find_program_address(&keyed_seeds(trade_config_seed(), fee_collector), program_id)
}

/// Whether `key` is the associated token account of `wallet` for `mint`.
pub fn is_associated_account(wallet: &[u8; 32], mint: &[u8; 32], key: &[u8; 32]) -> (r: bool)
    ensures
        r == (associated_address_of(wallet@, mint@) == Some(key@)),
{
    match associated_token_address(wallet, mint) {
        Some(expected) => same_key(&expected, key),
        None => false,
    }
}

} // verus!
