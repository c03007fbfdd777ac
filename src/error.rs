use vstd::prelude::*;

verus! {

/// Every way a request can fail. The first seventeen carry a numeric code that
/// clients match on; the last two are the host's generic conditions.
#[derive(Debug, Clone, Copy, PartialEq, Eq, Structural)]
pub enum EscrowError {
    InvalidInstruction,
    InvalidEscrowPda,
    InvalidVaultAta,
    InvalidTokenAccount,
    InvalidSigner,
    InvalidPreimage,
    NotActive,
    TooEarly,
    InvalidConfigPda,
    InvalidConfigState,
    FeeTooHigh,
    AlreadyInitialized,
    InvalidFeeVaultAta,
    InvalidTradeConfigPda,
    InvalidTradeConfigState,
    InvalidTradeFeeVaultAta,
    FeeMismatch,
    /// Fewer accounts were supplied than the request names.
    NotEnoughAccountKeys,
    /// An account that must be writable is not, or a record does not decode.
    InvalidAccountData,
}

/// The program-specific code of each condition that has one.
pub open spec fn code_of(e: EscrowError) -> Option<u32> {
    match e {
        EscrowError::InvalidInstruction => Some(1),
        EscrowError::InvalidEscrowPda => Some(2),
        EscrowError::InvalidVaultAta => Some(3),
        EscrowError::InvalidTokenAccount => Some(4),
        EscrowError::InvalidSigner => Some(5),
        EscrowError::InvalidPreimage => Some(6),
        EscrowError::NotActive => Some(7),
        EscrowError::TooEarly => Some(8),
        EscrowError::InvalidConfigPda => Some(9),
        EscrowError::InvalidConfigState => Some(10),
        EscrowError::FeeTooHigh => Some(11),
        EscrowError::AlreadyInitialized => Some(12),
        EscrowError::InvalidFeeVaultAta => Some(13),
        EscrowError::InvalidTradeConfigPda => Some(14),
        EscrowError::InvalidTradeConfigState => Some(15),
        EscrowError::InvalidTradeFeeVaultAta => Some(16),
        EscrowError::FeeMismatch => Some(17),
        EscrowError::NotEnoughAccountKeys => None,
        EscrowError::InvalidAccountData => None,
    }
}

impl EscrowError {
    /// The program-specific error code, for the conditions that have one.
    pub fn custom_code(&self) -> (r: Option<u32>)
        ensures
            r == code_of(*self),
            r is None <==> (*self == EscrowError::NotEnoughAccountKeys || *self
                == EscrowError::InvalidAccountData),
            r is Some ==> 1 <= r->Some_0 <= 17,
    {
        match self {
            EscrowError::InvalidInstruction => Some(1),
            EscrowError::InvalidEscrowPda => Some(2),
            EscrowError::InvalidVaultAta => Some(3),
            EscrowError::InvalidTokenAccount => Some(4),
            EscrowError::InvalidSigner => Some(5),
            EscrowError::InvalidPreimage => Some(6),
            EscrowError::NotActive => Some(7),
            EscrowError::TooEarly => Some(8),
            EscrowError::InvalidConfigPda => Some(9),
            EscrowError::InvalidConfigState => Some(10),
            EscrowError::FeeTooHigh => Some(11),
            EscrowError::AlreadyInitialized => Some(12),
            EscrowError::InvalidFeeVaultAta => Some(13),
            EscrowError::InvalidTradeConfigPda => Some(14),
            EscrowError::InvalidTradeConfigState => Some(15),
            EscrowError::InvalidTradeFeeVaultAta => Some(16),
            EscrowError::FeeMismatch => Some(17),
            EscrowError::NotEnoughAccountKeys => None,
            EscrowError::InvalidAccountData => None,
        }
    }
}

} // verus!
