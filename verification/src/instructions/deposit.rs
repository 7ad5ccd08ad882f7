use crate::constants::MAX_LOCK_PERIOD;
use crate::errors::ErrorCode;
use crate::events::DepositEvent;
use crate::ledger::TransferRequest;
use crate::ledger::TransferSigner;
use crate::state::Signer;
use crate::state::TokenAccount;
use crate::state::UserVault;
use crate::state::VaultAuthority;
use anchor_lang::prelude::Pubkey;
use vstd::prelude::*;

verus! {

/// The accounts of a deposit, as the vault reads them.
#[derive(Clone, Copy, Debug, PartialEq, Eq)]
pub struct Deposit {
    /// The user's record.
    pub user_vault: UserVault,
    /// The user, who has to sign.
    pub user: Signer,
    /// Where the tokens come from.
    pub user_token_account: TokenAccount,
    /// The user's principal pool.
    pub token_vault: TokenAccount,
    /// The authority that signs for the pools.
    pub vault_authority: VaultAuthority,
    pub token_mint: Pubkey,
}

/// What a deposit that the vault accepts asks for: one transfer into the principal
/// pool, signed by the user, and the event that records it.
#[derive(Clone, Copy, Debug, PartialEq, Eq)]
pub struct DepositReceipt {
    pub transfer: TransferRequest,
    pub event: DepositEvent,
}

/// Whether a deposit may ask for this lock period.
pub open spec fn valid_lock_period(lock_period: u64) -> bool {
    0 < lock_period <= MAX_LOCK_PERIOD
}

/// What the vault decides of a deposit before it reads any clock: the rejection, if the
/// request is not signed or the lock period is out of range.
pub open spec fn request_rejection(ctx: Deposit, lock_period: u64) -> Option<ErrorCode> {
    if !ctx.user.is_signer {
        Some(ErrorCode::MissingSignature)
    } else if !valid_lock_period(lock_period) {
        Some(ErrorCode::InvalidLockPeriod)
    } else {
        None
    }
}

/// What the vault answers to a deposit of `amount` under `lock_period` at time `now`:
/// the accounts as the deposit leaves them and what it asks for, or the rejection.
pub open spec fn deposit_outcome(ctx: Deposit, now: i64, lock_period: u64, amount: u64) -> Result<
    (Deposit, DepositReceipt),
    ErrorCode,
> {
    if let Some(code) = request_rejection(ctx, lock_period) {
        Err(code)
    } else if now + lock_period > i64::MAX {
        Err(ErrorCode::ArithmeticError)
    } else {
        let unlock_timestamp = (now + lock_period) as i64;
        Ok(
            (
                Deposit {
                    user_vault: UserVault { lock_period, unlock_timestamp, ..ctx.user_vault },
                    ..ctx
                },
                DepositReceipt {
                    transfer: TransferRequest {
                        from: ctx.user_token_account.key,
                        to: ctx.token_vault.key,
                        authority: ctx.user.key,
                        amount,
                        signer: TransferSigner::User,
                    },
                    event: DepositEvent {
                        user: ctx.user.key,
                        vault: ctx.token_vault.key,
                        amount,
                        lock_period,
                        unlock_timestamp,
                        timestamp: now,
                    },
                },
            ),
        )
    }
}

/// A deposit resets the lock: the unlock time that it sets is `now + lock_period`,
/// whatever unlock time and lock period the record held before, running or not.
pub proof fn lemma_deposit_resets_lock(
    ctx: Deposit,
    prior_unlock: i64,
    prior_period: u64,
    now: i64,
    lock_period: u64,
    amount: u64,
)
    requires
        deposit_outcome(ctx, now, lock_period, amount) is Ok,
    ensures
        deposit_outcome(ctx, now, lock_period, amount)->Ok_0.0.user_vault.unlock_timestamp == now
            + lock_period,
        deposit_outcome(
            Deposit {
                user_vault: UserVault {
                    unlock_timestamp: prior_unlock,
                    lock_period: prior_period,
                    ..ctx.user_vault
                },
                ..ctx
            },
            now,
            lock_period,
            amount,
        ) == deposit_outcome(ctx, now, lock_period, amount),
{
}

/// Checks what can be checked of a deposit without the time: the signature first,
/// then the lock period.
pub fn check_request(ctx: &Deposit, lock_period: u64) -> (res: Result<(), ErrorCode>)
    ensures
        match res {
            Ok(_) => request_rejection(*ctx, lock_period) is None,
            Err(code) => request_rejection(*ctx, lock_period) == Some(code),
        },
{
    if !ctx.user.is_signer {
        return Err(ErrorCode::MissingSignature);
    }
    if lock_period == 0 || lock_period > MAX_LOCK_PERIOD {
        return Err(ErrorCode::InvalidLockPeriod);
    }
    Ok(())
}

/// Decides a deposit of `amount` under `lock_period` at time `now`.
///
/// The user must have signed, the lock period must lie in `1..=MAX_LOCK_PERIOD`, and
/// the unlock time must fit the clock's type. The record's unlock time then becomes
/// `now + lock_period`, whatever it was before, and its lock period `lock_period`;
/// nothing else in the accounts changes. A rejection changes nothing at all.
pub fn handler(ctx: &mut Deposit, now: i64, lock_period: u64, amount: u64) -> (res: Result<
    DepositReceipt,
    ErrorCode,
>)
    ensures
        match res {
            Ok(receipt) => deposit_outcome(*old(ctx), now, lock_period, amount) == Ok::<
                (Deposit, DepositReceipt),
                ErrorCode,
            >((*final(ctx), receipt)),
            Err(code) => deposit_outcome(*old(ctx), now, lock_period, amount) == Err::<
                (Deposit, DepositReceipt),
                ErrorCode,
            >(code) && *final(ctx) == *old(ctx),
        },
        !old(ctx).user.is_signer ==> res == Err::<DepositReceipt, ErrorCode>(
            ErrorCode::MissingSignature,
        ),
        res is Ok ==> {
            &&& final(ctx).user_vault.unlock_timestamp == now + lock_period
            &&& final(ctx).user_vault.lock_period == lock_period
            &&& final(ctx).user_vault.user == old(ctx).user_vault.user
            &&& final(ctx).user_vault.token_mint == old(ctx).user_vault.token_mint
        },
{
    if let Err(code) = check_request(ctx, lock_period) {
        return Err(code);
    }
    let unlock_timestamp: i64 = match now.checked_add(lock_period as i64) {
        Some(unlock_timestamp) => unlock_timestamp,
        None => {
            return Err(ErrorCode::ArithmeticError);
        },
    };
    ctx.user_vault.lock_period = lock_period;
    ctx.user_vault.unlock_timestamp = unlock_timestamp;
    Ok(
        DepositReceipt {
            transfer: TransferRequest {
                from: ctx.user_token_account.key,
                to: ctx.token_vault.key,
                authority: ctx.user.key,
                amount,
                signer: TransferSigner::User,
            },
            event: DepositEvent {
                user: ctx.user.key,
                vault: ctx.token_vault.key,
                amount,
                lock_period,
                unlock_timestamp,
                timestamp: now,
            },
        },
    )
}

} // verus!
