//! What a request handler sees of each account it is handed.
use vstd::prelude::*;
use crate::error::EscrowError;

verus! {

/// An account as handed to a request: its address, whether it signed, whether
/// it may be written, and its current data.
#[derive(Debug, Clone)]
pub struct AccountView {
    pub key: [u8; 32],
    pub is_signer: bool,
    pub is_writable: bool,
    pub data: Vec<u8>,
}

/// Fails with `InvalidSigner` unless the account signed.
pub fn assert_signer(ai: &AccountView) -> (r: Result<(), EscrowError>)
    ensures
        r is Ok <==> ai.is_signer,
        r is Err ==> r->Err_0 == EscrowError::InvalidSigner,
{
    if !ai.is_signer {
        return Err(EscrowError::InvalidSigner);
    }
    Ok(())
}

/// Fails with `InvalidAccountData` unless the account is writable.
pub fn assert_writable(ai: &AccountView) -> (r: Result<(), EscrowError>)
    ensures
        r is Ok <==> ai.is_writable,
        r is Err ==> r->Err_0 == EscrowError::InvalidAccountData,
{
    if !ai.is_writable {
        return Err(EscrowError::InvalidAccountData);
    }
    Ok(())
}

/// Whether the account holds no data, i.e. was never created.
pub fn data_is_empty(ai: &AccountView) -> (r: bool)
    ensures
        r == (ai.data@.len() == 0),
{
    ai.data.len() == 0
}

} // verus!
