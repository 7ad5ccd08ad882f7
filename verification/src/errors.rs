use anchor_lang::prelude::ProgramError;
use vstd::prelude::*;

verus! {

/// Why the vault turned a request down. A rejected request changes nothing.
#[derive(Clone, Copy, Debug, PartialEq, Eq, Structural)]
pub enum ErrorCode {
    /// The fee or the unlock time does not fit its integer type.
    ArithmeticError,
    /// The fee is larger than the amount it is taken from.
    InsufficientAmount,
    /// The user did not sign the request.
    MissingSignature,
    /// The deposit is still locked.
    DepositLocked,
    /// The principal pool holds less than the amount asked for.
    InsufficientVaultBalance,
    /// The lock period is zero or above `MAX_LOCK_PERIOD`.
    InvalidLockPeriod,
    /// The extend period is zero or above `MAX_EXTEND_PERIOD`.
    InvalidExtendPeriod,
    /// The record or the pool to be created is already there.
    AlreadyProvisioned,
}

/// What `code` says to a reader.
pub open spec fn message_of(code: ErrorCode) -> Seq<char> {
    match code {
        ErrorCode::ArithmeticError => "Arithmetic error during fee calculation"@,
        ErrorCode::InsufficientAmount => "Insufficient amount to cover fee"@,
        ErrorCode::MissingSignature => "User signature is missing"@,
        ErrorCode::DepositLocked => "Deposit is still locked"@,
        ErrorCode::InsufficientVaultBalance => "Insufficient balance in vault"@,
        ErrorCode::InvalidLockPeriod => "Invalid lock period"@,
        ErrorCode::InvalidExtendPeriod => "Invalid extend period"@,
        ErrorCode::AlreadyProvisioned => "Vault is already provisioned"@,
    }
}

impl ErrorCode {
    /// The message that goes with the code.
    pub fn message(&self) -> (msg: &'static str)
        ensures
            msg@ == message_of(*self),
    {
        match self {
            ErrorCode::ArithmeticError => "Arithmetic error during fee calculation",
            ErrorCode::InsufficientAmount => "Insufficient amount to cover fee",
            ErrorCode::MissingSignature => "User signature is missing",
            ErrorCode::DepositLocked => "Deposit is still locked",
            ErrorCode::InsufficientVaultBalance => "Insufficient balance in vault",
            ErrorCode::InvalidLockPeriod => "Invalid lock period",
            ErrorCode::InvalidExtendPeriod => "Invalid extend period",
            ErrorCode::AlreadyProvisioned => "Vault is already provisioned",
        }
    }
}

/// How a request made through the runtime can fail: the vault rejects it, or the
/// runtime itself fails before the vault can decide.
#[derive(Debug, PartialEq, Eq)]
pub enum VaultError {
    /// One of the vault's own rules rejected the request.
    Rejected(ErrorCode),
    /// The runtime failed; its error is handed on as it came.
    Program(ProgramError),
}

} // verus!
