//! A hash-locked token escrow with two fee policies. A depositor locks an
//! amount plus a platform fee and a trade fee under a payment hash; the
//! recipient claims it with the preimage, or the depositor takes everything
//! back after the refund time. Each request handler checks the request against
//! the accounts it names and returns what must be carried out.
use vstd::prelude::*;

pub mod accounts;
pub mod address;
pub mod codec;
pub mod error;
pub mod escrow;
pub mod fees;
pub mod host;
pub mod instruction;
pub mod policy;
pub mod state;

verus! {

/// Largest fee rate, in basis points, that a policy or an escrow may carry.
pub const MAX_FEE_BPS: u16 = 2500;

} // verus!
