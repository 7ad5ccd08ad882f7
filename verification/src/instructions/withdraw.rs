use crate::constants::FEE_DENOMINATOR;
use crate::constants::LOCKED_FEE_PERCENTAGE;
use crate::constants::UNLOCKED_FEE_PERCENTAGE;
use crate::errors::ErrorCode;
use crate::events::WithdrawEvent;
use crate::ledger::TransferRequest;
use crate::ledger::TransferSigner;
use crate::state::Signer;
use crate::state::TokenAccount;
use crate::state::UserVault;
use crate::state::VaultAuthority;
use anchor_lang::prelude::Pubkey;
use vstd::prelude::*;

verus! {

/// The accounts of a withdrawal, as the vault reads them.
#[derive(Clone, Copy, Debug, PartialEq, Eq)]
pub struct Withdraw {
    /// The user's record.
    pub user_vault: UserVault,
    /// The user, who has to sign.
    pub user: Signer,
    /// Where the payout goes.
    pub user_token_account: TokenAccount,
    /// The user's principal pool.
    pub token_vault: TokenAccount,
    /// The authority that signs for the pools.
    pub vault_authority: VaultAuthority,
    /// The shared fee pool.
    pub fee_vault: TokenAccount,
    pub token_mint: Pubkey,
}

/// What a withdrawal that the vault accepts asks for: two transfers out of the
/// principal pool, the fee first, and the event that records them. The ledger carries
/// out both or neither.
#[derive(Clone, Copy, Debug, PartialEq, Eq)]
pub struct WithdrawReceipt {
    /// `fee` from the principal pool to the fee pool.
    pub fee_transfer: TransferRequest,
    /// `amount_after_fee` from the principal pool to the user.
    pub payout_transfer: TransferRequest,
    pub event: WithdrawEvent,
}

/// Whether the lock is still running at `now`.
pub open spec fn is_locked_at(unlock_timestamp: i64, now: i64) -> bool {
    now < unlock_timestamp
}

/// The fee tier: 5 percent under a running lock, 1 percent after it.
pub open spec fn fee_percentage_of(is_locked: bool) -> u64 {
    if is_locked {
        LOCKED_FEE_PERCENTAGE
    } else {
        UNLOCKED_FEE_PERCENTAGE
    }
}

/// The fee on `amount` at `percentage` percent, rounded down.
pub open spec fn fee_of(amount: u64, percentage: u64) -> int {
    (amount * percentage) / (FEE_DENOMINATOR as int)
}

/// What the vault answers to a withdrawal of `amount` at time `now`.
pub open spec fn withdraw_outcome(ctx: Withdraw, now: i64, amount: u64) -> Result<
    WithdrawReceipt,
    ErrorCode,
> {
    let percentage = fee_percentage_of(is_locked_at(ctx.user_vault.unlock_timestamp, now));
    let fee = fee_of(amount, percentage);
    if !ctx.user.is_signer {
        Err(ErrorCode::MissingSignature)
    } else if ctx.token_vault.amount < amount {
        Err(ErrorCode::InsufficientVaultBalance)
    } else if amount * percentage > u64::MAX {
        Err(ErrorCode::ArithmeticError)
    } else {
        Ok(
            WithdrawReceipt {
                fee_transfer: TransferRequest {
                    from: ctx.token_vault.key,
                    to: ctx.fee_vault.key,
                    authority: ctx.vault_authority.key,
                    amount: fee as u64,
                    signer: TransferSigner::VaultAuthority { bump: ctx.vault_authority.bump },
                },
                payout_transfer: TransferRequest {
                    from: ctx.token_vault.key,
                    to: ctx.user_token_account.key,
                    authority: ctx.vault_authority.key,
                    amount: (amount - fee) as u64,
                    signer: TransferSigner::VaultAuthority { bump: ctx.vault_authority.bump },
                },
                event: WithdrawEvent {
                    user: ctx.user.key,
                    vault: ctx.token_vault.key,
                    amount,
                    fee: fee as u64,
                    amount_after_fee: (amount - fee) as u64,
                    timestamp: now,
                },
            },
        )
    }
}

/// The fee never exceeds the amount it is taken from, at either tier.
pub proof fn lemma_fee_within_amount(amount: u64, is_locked: bool)
    ensures
        0 <= fee_of(amount, fee_percentage_of(is_locked)) <= amount,
{
    if is_locked {
        assert(fee_of(amount, LOCKED_FEE_PERCENTAGE) == (amount * 5) / 100);
    } else {
        assert(fee_of(amount, UNLOCKED_FEE_PERCENTAGE) == (amount * 1) / 100);
    }
}

/// An accepted withdrawal splits the amount exactly: the fee is 5 percent of it,
/// rounded down, while the lock runs and 1 percent from the unlock time on, and fee
/// and payout add up to the amount. Both transfers leave the principal pool under the
/// vault's authority, with the same signer.
pub proof fn lemma_withdrawal_splits_amount(ctx: Withdraw, now: i64, amount: u64)
    requires
        withdraw_outcome(ctx, now, amount) is Ok,
    ensures
        ({
            let receipt = withdraw_outcome(ctx, now, amount)->Ok_0;
            &&& now < ctx.user_vault.unlock_timestamp ==> receipt.event.fee == amount * 5 / 100
            &&& now >= ctx.user_vault.unlock_timestamp ==> receipt.event.fee == amount * 1 / 100
            &&& receipt.event.fee + receipt.event.amount_after_fee == amount
            &&& receipt.fee_transfer.amount == receipt.event.fee
            &&& receipt.payout_transfer.amount == receipt.event.amount_after_fee
            &&& receipt.fee_transfer.amount + receipt.payout_transfer.amount
                <= ctx.token_vault.amount
            &&& receipt.fee_transfer.from == ctx.token_vault.key
            &&& receipt.payout_transfer.from == ctx.token_vault.key
            &&& receipt.fee_transfer.signer == receipt.payout_transfer.signer
        }),
{
    lemma_fee_within_amount(amount, is_locked_at(ctx.user_vault.unlock_timestamp, now));
}

/// The fee tier for a withdrawal.
pub fn fee_percentage(is_locked: bool) -> (percentage: u64)
    ensures
        percentage == fee_percentage_of(is_locked),
{
    if is_locked {
        LOCKED_FEE_PERCENTAGE
    } else {
        UNLOCKED_FEE_PERCENTAGE
    }
}

/// The fee on `amount` at `percentage` percent, rounded down; `ArithmeticError` when
/// the product does not fit in 64 bits.
pub fn compute_fee(amount: u64, percentage: u64) -> (res: Result<u64, ErrorCode>)
    ensures
        amount * percentage <= u64::MAX ==> res == Ok::<u64, ErrorCode>(
            fee_of(amount, percentage) as u64,
        ),
        amount * percentage > u64::MAX ==> res == Err::<u64, ErrorCode>(
            ErrorCode::ArithmeticError,
        ),
{
    match amount.checked_mul(percentage) {
        Some(product) => Ok(product / FEE_DENOMINATOR),
        None => Err(ErrorCode::ArithmeticError),
    }
}

/// Decides a withdrawal of `amount` at time `now`.
///
/// The user must have signed and the principal pool must hold `amount`. The fee is 5
/// percent of `amount` while `now` is before the record's unlock time and 1 percent
/// from then on, rounded down; fee and payout add up to `amount`. A rejection asks for
/// no transfer, and no outcome touches the record.
pub fn handler(ctx: &Withdraw, now: i64, amount: u64) -> (res: Result<WithdrawReceipt, ErrorCode>)
    ensures
        res == withdraw_outcome(*ctx, now, amount),
        !ctx.user.is_signer ==> res == Err::<WithdrawReceipt, ErrorCode>(
            ErrorCode::MissingSignature,
        ),
        ctx.user.is_signer && amount > ctx.token_vault.amount ==> res == Err::<
            WithdrawReceipt,
            ErrorCode,
        >(ErrorCode::InsufficientVaultBalance),
        res matches Ok(receipt) ==> {
            &&& now < ctx.user_vault.unlock_timestamp ==> receipt.event.fee == amount * 5 / 100
            &&& now >= ctx.user_vault.unlock_timestamp ==> receipt.event.fee == amount * 1 / 100
            &&& receipt.event.amount_after_fee + receipt.event.fee == amount
            &&& receipt.fee_transfer.amount == receipt.event.fee
            &&& receipt.payout_transfer.amount == receipt.event.amount_after_fee
        },
        res matches Err(code) ==> code != ErrorCode::InsufficientAmount,
{
    if !ctx.user.is_signer {
        return Err(ErrorCode::MissingSignature);
    }
    if ctx.token_vault.amount < amount {
        return Err(ErrorCode::InsufficientVaultBalance);
    }
    let is_locked = now < ctx.user_vault.unlock_timestamp;
    let fee: u64 = match compute_fee(amount, fee_percentage(is_locked)) {
        Ok(fee) => fee,
        Err(code) => {
            return Err(code);
        },
    };
    proof {
        lemma_fee_within_amount(amount, is_locked);
    }
    let amount_after_fee: u64 = match amount.checked_sub(fee) {
        Some(rest) => rest,
        None => {
            return Err(ErrorCode::InsufficientAmount);
        },
    };
    let signer = TransferSigner::VaultAuthority { bump: ctx.vault_authority.bump };
    Ok(
        WithdrawReceipt {
            fee_transfer: TransferRequest {
                from: ctx.token_vault.key,
                to: ctx.fee_vault.key,
                authority: ctx.vault_authority.key,
                amount: fee,
                signer,
            },
            payout_transfer: TransferRequest {
                from: ctx.token_vault.key,
                to: ctx.user_token_account.key,
                authority: ctx.vault_authority.key,
                amount: amount_after_fee,
                signer,
            },
            event: WithdrawEvent {
                user: ctx.user.key,
                vault: ctx.token_vault.key,
                amount,
                fee,
                amount_after_fee,
                timestamp: now,
            },
        },
    )
}

} // verus!
