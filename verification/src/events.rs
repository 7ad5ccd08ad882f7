use anchor_lang::prelude::Pubkey;
use vstd::prelude::*;

verus! {

/// A user's record and principal pool were created.
#[derive(Clone, Copy, Debug, PartialEq, Eq)]
pub struct VaultInitialized {
    pub user: Pubkey,
    pub vault: Pubkey,
    pub token_mint: Pubkey,
}

/// The shared fee pool was created.
#[derive(Clone, Copy, Debug, PartialEq, Eq)]
pub struct FeeVaultInitialized {
    pub initializer: Pubkey,
    pub fee_vault: Pubkey,
    pub token_mint: Pubkey,
}

/// Tokens went into a principal pool and the lock was set.
#[derive(Clone, Copy, Debug, PartialEq, Eq)]
pub struct DepositEvent {
    pub user: Pubkey,
    pub vault: Pubkey,
    pub amount: u64,
    pub lock_period: u64,
    pub unlock_timestamp: i64,
    pub timestamp: i64,
}

/// A lock was pushed further out.
#[derive(Clone, Copy, Debug, PartialEq, Eq)]
pub struct ExtendEvent {
    pub user: Pubkey,
    pub vault: Pubkey,
    pub extend_period: u64,
    pub unlock_timestamp: i64,
    pub timestamp: i64,
}

/// Tokens left a principal pool: `fee` to the fee pool, `amount_after_fee` to the user.
#[derive(Clone, Copy, Debug, PartialEq, Eq)]
pub struct WithdrawEvent {
    pub user: Pubkey,
    pub vault: Pubkey,
    pub amount: u64,
    pub fee: u64,
    pub amount_after_fee: u64,
    pub timestamp: i64,
}

} // verus!
