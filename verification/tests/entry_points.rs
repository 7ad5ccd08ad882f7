use anchor_lang::prelude::{ProgramError, Pubkey};
use minimal_solana_token_vault::errors::{ErrorCode, VaultError};
use minimal_solana_token_vault::instructions::deposit::Deposit;
use minimal_solana_token_vault::instructions::extend::Extend;
use minimal_solana_token_vault::instructions::initialize_fee_vault::InitializeFeeVault;
use minimal_solana_token_vault::instructions::initialize_vault::InitializeVault;
use minimal_solana_token_vault::instructions::withdraw::Withdraw;
use minimal_solana_token_vault::state::{Signer, TokenAccount, UserVault, VaultAuthority};
use minimal_solana_token_vault::{deposit, extend, initialize_fee_vault, initialize_vault, withdraw};

fn addr(n: u8) -> Pubkey {
    Pubkey::new_from_array([n; 32])
}

fn token_account(n: u8, amount: u64) -> TokenAccount {
    TokenAccount { key: addr(n), mint: addr(2), owner: addr(5), amount }
}

fn user_vault(unlock_timestamp: i64) -> UserVault {
    UserVault { user: addr(1), token_mint: addr(2), lock_period: 0, unlock_timestamp }
}

fn deposit_ctx(is_signer: bool) -> Deposit {
    Deposit {
        user_vault: user_vault(42),
        user: Signer { key: addr(1), is_signer },
        user_token_account: token_account(3, 500),
        token_vault: token_account(4, 0),
        vault_authority: VaultAuthority { key: addr(5), bump: 250 },
        token_mint: addr(2),
    }
}

fn extend_ctx(unlock_timestamp: i64, is_signer: bool) -> Extend {
    Extend {
        user_vault: user_vault(unlock_timestamp),
        user: Signer { key: addr(1), is_signer },
        token_vault: token_account(4, 0),
    }
}

fn withdraw_ctx(is_signer: bool) -> Withdraw {
    Withdraw {
        user_vault: user_vault(42),
        user: Signer { key: addr(1), is_signer },
        user_token_account: token_account(3, 0),
        token_vault: token_account(4, 1000),
        vault_authority: VaultAuthority { key: addr(5), bump: 250 },
        fee_vault: token_account(6, 0),
        token_mint: addr(2),
    }
}

#[test]
fn deposit_rejects_before_reading_the_clock() {
    let mut ctx = deposit_ctx(false);
    let before = ctx;
    assert_eq!(
        deposit(&mut ctx, 3600, 100),
        Err(VaultError::Rejected(ErrorCode::MissingSignature))
    );
    let mut ctx = deposit_ctx(true);
    assert_eq!(deposit(&mut ctx, 0, 100), Err(VaultError::Rejected(ErrorCode::InvalidLockPeriod)));
    assert_eq!(ctx.user_vault, before.user_vault);
}

#[test]
fn deposit_without_a_runtime_hands_on_the_clock_failure() {
    let mut ctx = deposit_ctx(true);
    let before = ctx;
    assert_eq!(
        deposit(&mut ctx, 3600, 100),
        Err(VaultError::Program(ProgramError::UnsupportedSysvar))
    );
    assert_eq!(ctx, before);
}

#[test]
fn extend_rejects_before_reading_the_clock() {
    let mut ctx = extend_ctx(3600, false);
    assert_eq!(extend(&mut ctx, 1800), Err(VaultError::Rejected(ErrorCode::MissingSignature)));
    let mut ctx = extend_ctx(3600, true);
    assert_eq!(extend(&mut ctx, 0), Err(VaultError::Rejected(ErrorCode::InvalidExtendPeriod)));
    let mut ctx = extend_ctx(i64::MAX, true);
    assert_eq!(extend(&mut ctx, 1), Err(VaultError::Rejected(ErrorCode::ArithmeticError)));
    assert_eq!(ctx.user_vault.unlock_timestamp, i64::MAX);
}

#[test]
fn extend_without_a_runtime_hands_on_the_clock_failure() {
    let mut ctx = extend_ctx(3600, true);
    assert_eq!(extend(&mut ctx, 1800), Err(VaultError::Program(ProgramError::UnsupportedSysvar)));
    assert_eq!(ctx.user_vault.unlock_timestamp, 3600);
}

#[test]
fn withdraw_rejects_before_reading_the_clock() {
    assert_eq!(
        withdraw(&withdraw_ctx(false), 100),
        Err(VaultError::Rejected(ErrorCode::MissingSignature))
    );
}

#[test]
fn withdraw_without_a_runtime_hands_on_the_clock_failure() {
    assert_eq!(
        withdraw(&withdraw_ctx(true), 100),
        Err(VaultError::Program(ProgramError::UnsupportedSysvar))
    );
}

#[test]
fn initialize_vault_once() {
    let mut ctx = InitializeVault {
        user_vault: None,
        token_vault: None,
        token_vault_key: addr(4),
        vault_authority: addr(5),
        token_mint: addr(2),
        user: addr(1),
    };
    let event = initialize_vault(&mut ctx).unwrap();
    assert_eq!((event.user, event.vault, event.token_mint), (addr(1), addr(4), addr(2)));
    assert_eq!(ctx.user_vault, Some(user_vault(0)));
    assert_eq!(initialize_vault(&mut ctx), Err(ErrorCode::AlreadyProvisioned));
}

#[test]
fn initialize_fee_vault_once() {
    let mut ctx = InitializeFeeVault {
        fee_vault: None,
        fee_vault_key: addr(6),
        vault_authority: addr(5),
        token_mint: addr(2),
        initializer: addr(7),
    };
    let event = initialize_fee_vault(&mut ctx).unwrap();
    assert_eq!(event.fee_vault, addr(6));
    assert_eq!(ctx.fee_vault, Some(token_account(6, 0)));
    assert_eq!(initialize_fee_vault(&mut ctx), Err(ErrorCode::AlreadyProvisioned));
}
