use anchor_lang::prelude::Pubkey;
use minimal_solana_token_vault::errors::ErrorCode;
use minimal_solana_token_vault::instructions::withdraw::{
    compute_fee, fee_percentage, handler, Withdraw,
};
use minimal_solana_token_vault::ledger::{TransferRequest, TransferSigner};
use minimal_solana_token_vault::state::{Signer, TokenAccount, UserVault, VaultAuthority};

fn key(n: u8) -> Pubkey {
    Pubkey::new_from_array([n; 32])
}

fn accounts(balance: u64, unlock_timestamp: i64, is_signer: bool) -> Withdraw {
    Withdraw {
        user_vault: UserVault {
            user: key(1),
            token_mint: key(2),
            lock_period: 3600,
            unlock_timestamp,
        },
        user: Signer { key: key(1), is_signer },
        user_token_account: TokenAccount { key: key(3), mint: key(2), owner: key(1), amount: 0 },
        token_vault: TokenAccount { key: key(4), mint: key(2), owner: key(5), amount: balance },
        vault_authority: VaultAuthority { key: key(5), bump: 254 },
        fee_vault: TokenAccount { key: key(6), mint: key(2), owner: key(5), amount: 0 },
        token_mint: key(2),
    }
}

#[test]
fn locked_withdrawal_pays_five_percent() {
    let ctx = accounts(1000, 3600, true);
    let receipt = handler(&ctx, 100, 100).unwrap();
    assert_eq!(receipt.event.fee, 5);
    assert_eq!(receipt.event.amount_after_fee, 95);
    assert_eq!(receipt.event.amount, 100);
    assert_eq!(receipt.event.timestamp, 100);
    assert_eq!(receipt.event.user, key(1));
    assert_eq!(receipt.event.vault, key(4));
}

#[test]
fn unlocked_withdrawal_pays_one_percent() {
    let ctx = accounts(1000, 3600, true);
    let receipt = handler(&ctx, 4000, 100).unwrap();
    assert_eq!(receipt.event.fee, 1);
    assert_eq!(receipt.event.amount_after_fee, 99);
}

#[test]
fn lock_ends_at_the_unlock_time_itself() {
    let ctx = accounts(1000, 3600, true);
    assert_eq!(handler(&ctx, 3599, 1000).unwrap().event.fee, 50);
    assert_eq!(handler(&ctx, 3600, 1000).unwrap().event.fee, 10);
}

#[test]
fn fee_is_rounded_down() {
    let ctx = accounts(1000, 3600, true);
    let locked = handler(&ctx, 0, 199).unwrap();
    assert_eq!(locked.event.fee, 9);
    assert_eq!(locked.event.amount_after_fee, 190);
    let unlocked = handler(&ctx, 3600, 199).unwrap();
    assert_eq!(unlocked.event.fee, 1);
    assert_eq!(unlocked.event.amount_after_fee, 198);
    let small = handler(&ctx, 0, 19).unwrap();
    assert_eq!(small.event.fee, 0);
    assert_eq!(small.event.amount_after_fee, 19);
}

#[test]
fn fee_and_payout_add_up_to_the_amount() {
    let ctx = accounts(u64::MAX, 3600, true);
    for amount in [0u64, 1, 19, 20, 99, 100, 101, 12_345, 1_000_000_007] {
        for now in [0i64, 3599, 3600, 10_000] {
            let receipt = handler(&ctx, now, amount).unwrap();
            assert_eq!(receipt.event.fee + receipt.event.amount_after_fee, amount);
            let percent: u64 = if now < 3600 { 5 } else { 1 };
            assert_eq!(receipt.event.fee, amount * percent / 100);
        }
    }
}

#[test]
fn withdrawal_asks_for_fee_then_payout_under_the_vault_authority() {
    let ctx = accounts(1000, 3600, true);
    let receipt = handler(&ctx, 100, 200).unwrap();
    let signer = TransferSigner::VaultAuthority { bump: 254 };
    assert_eq!(
        receipt.fee_transfer,
        TransferRequest { from: key(4), to: key(6), authority: key(5), amount: 10, signer }
    );
    assert_eq!(
        receipt.payout_transfer,
        TransferRequest { from: key(4), to: key(3), authority: key(5), amount: 190, signer }
    );
}

#[test]
fn whole_balance_can_be_withdrawn() {
    let ctx = accounts(1000, 3600, true);
    let receipt = handler(&ctx, 100, 1000).unwrap();
    assert_eq!(receipt.event.fee, 50);
    assert_eq!(receipt.event.amount_after_fee, 950);
}

#[test]
fn withdrawal_above_the_balance_is_rejected() {
    let ctx = accounts(1000, 3600, true);
    assert_eq!(handler(&ctx, 100, 1001), Err(ErrorCode::InsufficientVaultBalance));
    assert_eq!(handler(&ctx, 4000, u64::MAX), Err(ErrorCode::InsufficientVaultBalance));
    let empty = accounts(0, 3600, true);
    assert_eq!(handler(&empty, 100, 1), Err(ErrorCode::InsufficientVaultBalance));
}

#[test]
fn unsigned_withdrawal_is_rejected() {
    let ctx = accounts(1000, 3600, false);
    assert_eq!(handler(&ctx, 100, 100), Err(ErrorCode::MissingSignature));
    assert_eq!(handler(&ctx, 100, 5000), Err(ErrorCode::MissingSignature));
}

#[test]
fn fee_product_that_overflows_is_an_arithmetic_error() {
    let ctx = accounts(u64::MAX, 3600, true);
    let limit = u64::MAX / 5;
    assert_eq!(handler(&ctx, 0, limit).unwrap().event.fee, limit * 5 / 100);
    assert_eq!(handler(&ctx, 0, limit + 1), Err(ErrorCode::ArithmeticError));
    let unlocked = handler(&ctx, 3600, limit + 1).unwrap();
    assert_eq!(unlocked.event.fee, (limit + 1) / 100);
    assert_eq!(handler(&ctx, 3600, u64::MAX).unwrap().event.fee, u64::MAX / 100);
}

#[test]
fn fee_tiers() {
    assert_eq!(fee_percentage(true), 5);
    assert_eq!(fee_percentage(false), 1);
}

#[test]
fn compute_fee_values() {
    assert_eq!(compute_fee(100, 5), Ok(5));
    assert_eq!(compute_fee(100, 1), Ok(1));
    assert_eq!(compute_fee(99, 1), Ok(0));
    assert_eq!(compute_fee(0, 5), Ok(0));
    assert_eq!(compute_fee(u64::MAX, 1), Ok(u64::MAX / 100));
    assert_eq!(compute_fee(u64::MAX, 2), Err(ErrorCode::ArithmeticError));
}

#[test]
fn signer_seeds_of_the_vault_authority() {
    let ctx = accounts(1000, 3600, true);
    let receipt = handler(&ctx, 100, 200).unwrap();
    let seeds = receipt.fee_transfer.signer_seeds();
    assert_eq!(seeds, vec![b"vault-authority".to_vec(), vec![254u8]]);
    assert_eq!(receipt.payout_transfer.signer_seeds(), seeds);
}
