use anchor_lang::prelude::Pubkey;
use vstd::prelude::*;

verus! {

/// The record that the vault keeps for one user.
#[derive(Clone, Copy, Debug, PartialEq, Eq)]
pub struct UserVault {
    /// Who controls the record.
    pub user: Pubkey,
    /// The token that the record is denominated in. Fixed when the record is made.
    pub token_mint: Pubkey,
    /// Seconds asked for at the last deposit; zero before the first one.
    pub lock_period: u64,
    /// From this time on a withdrawal pays the lower fee.
    pub unlock_timestamp: i64,
}

/// What the vault reads of an account that has to sign a request.
#[derive(Clone, Copy, Debug, PartialEq, Eq)]
pub struct Signer {
    pub key: Pubkey,
    /// Whether the request carries this account's signature.
    pub is_signer: bool,
}

/// What the vault reads of a token account on the ledger.
#[derive(Clone, Copy, Debug, PartialEq, Eq)]
pub struct TokenAccount {
    pub key: Pubkey,
    /// The token that the account holds.
    pub mint: Pubkey,
    /// Who may move tokens out of the account.
    pub owner: Pubkey,
    /// The balance, in the token's smallest unit.
    pub amount: u64,
}

/// The identity that signs for the vault's pools. It belongs to no key holder: the
/// runtime accepts its signature from the vault program alone, by seed and bump.
#[derive(Clone, Copy, Debug, PartialEq, Eq)]
pub struct VaultAuthority {
    pub key: Pubkey,
    pub bump: u8,
}

} // verus!
