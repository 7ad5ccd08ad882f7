//! A custodial token vault: per-user deposits under a time lock, with a withdrawal fee
//! that depends on whether the lock has run out.
//!
//! The vault decides; it moves no tokens itself. Each request is answered with the
//! transfers that the token ledger is to make and the event to publish, or with a
//! rejection that changes nothing. The functions in `instructions` take the time as
//! an argument; the functions here read it from the runtime's clock.

use crate::chain::unix_timestamp;
use crate::errors::ErrorCode;
use crate::errors::VaultError;
use crate::events::ExtendEvent;
use crate::events::FeeVaultInitialized;
use crate::events::VaultInitialized;
use crate::instructions::deposit::deposit_outcome;
use crate::instructions::deposit::request_rejection;
use crate::instructions::deposit::Deposit;
use crate::instructions::deposit::DepositReceipt;
use crate::instructions::extend::extend_outcome;
use crate::instructions::extend::extended_unlock;
use crate::instructions::extend::Extend;
use crate::instructions::initialize_fee_vault::fee_pool_outcome;
use crate::instructions::initialize_fee_vault::InitializeFeeVault;
use crate::instructions::initialize_vault::provision_outcome;
use crate::instructions::initialize_vault::InitializeVault;
use crate::instructions::withdraw::withdraw_outcome;
use crate::instructions::withdraw::Withdraw;
use crate::instructions::withdraw::WithdrawReceipt;
use vstd::prelude::*;

pub mod chain;
pub mod constants;
pub mod errors;
pub mod events;
pub mod instructions;
pub mod ledger;
pub mod state;

verus! {

/// Creates the shared fee pool, once.
pub fn initialize_fee_vault(ctx: &mut InitializeFeeVault) -> (res: Result<
    FeeVaultInitialized,
    ErrorCode,
>)
    ensures
        match res {
            Ok(event) => fee_pool_outcome(*old(ctx)) == Ok::<
                (InitializeFeeVault, FeeVaultInitialized),
                ErrorCode,
            >((*final(ctx), event)),
            Err(code) => fee_pool_outcome(*old(ctx)) == Err::<
                (InitializeFeeVault, FeeVaultInitialized),
                ErrorCode,
            >(code) && *final(ctx) == *old(ctx),
        },
{
    instructions::initialize_fee_vault::handler(ctx)
}

/// Creates a user's record and principal pool, once.
pub fn initialize_vault(ctx: &mut InitializeVault) -> (res: Result<VaultInitialized, ErrorCode>)
    ensures
        match res {
            Ok(event) => provision_outcome(*old(ctx)) == Ok::<
                (InitializeVault, VaultInitialized),
                ErrorCode,
            >((*final(ctx), event)),
            Err(code) => provision_outcome(*old(ctx)) == Err::<
                (InitializeVault, VaultInitialized),
                ErrorCode,
            >(code) && *final(ctx) == *old(ctx),
        },
{
    instructions::initialize_vault::handler(ctx)
}

/// Deposits `amount` under `lock_period`, at the time that the runtime's clock gives.
///
/// A request that is not signed, or whose lock period is out of range, is rejected
/// before the clock is read. Otherwise the clock is read once: if that fails, the
/// runtime's error is handed on and nothing changes; if it gives a time, the deposit
/// is decided at that time, which the event carries as its `timestamp`.
pub fn deposit(ctx: &mut Deposit, lock_period: u64, amount: u64) -> (res: Result<
    DepositReceipt,
    VaultError,
>)
    ensures
        match res {
            Ok(receipt) => deposit_outcome(
                *old(ctx),
                receipt.event.timestamp,
                lock_period,
                amount,
            ) == Ok::<(Deposit, DepositReceipt), ErrorCode>((*final(ctx), receipt)),
            Err(VaultError::Rejected(code)) => *final(ctx) == *old(ctx) && exists|now: i64|
                #[trigger] deposit_outcome(*old(ctx), now, lock_period, amount) == Err::<
                    (Deposit, DepositReceipt),
                    ErrorCode,
                >(code),
            Err(VaultError::Program(_)) => *final(ctx) == *old(ctx) && request_rejection(
                *old(ctx),
                lock_period,
            ) is None,
        },
        request_rejection(*old(ctx), lock_period) matches Some(code) ==> res == Err::<
            DepositReceipt,
            VaultError,
        >(VaultError::Rejected(code)),
{
    if let Err(code) = instructions::deposit::check_request(ctx, lock_period) {
        assert(deposit_outcome(*old(ctx), 0i64, lock_period, amount) == Err::<
            (Deposit, DepositReceipt),
            ErrorCode,
        >(code));
        return Err(VaultError::Rejected(code));
    }
    let now: i64 = match unix_timestamp() {
        Ok(now) => now,
        Err(failure) => {
            return Err(VaultError::Program(failure));
        },
    };
    match instructions::deposit::handler(ctx, now, lock_period, amount) {
        Ok(receipt) => Ok(receipt),
        Err(code) => Err(VaultError::Rejected(code)),
    }
}

/// Extends the lock by `extend_period`, at the time that the runtime's clock gives.
///
/// The vault decides before the clock is read: a request that it rejects is rejected
/// whatever the clock would say. Otherwise the clock is read once, to date the event:
/// if that fails, the runtime's error is handed on and nothing changes.
pub fn extend(ctx: &mut Extend, extend_period: u64) -> (res: Result<ExtendEvent, VaultError>)
    ensures
        match res {
            Ok(event) => extend_outcome(*old(ctx), event.timestamp, extend_period) == Ok::<
                (Extend, ExtendEvent),
                ErrorCode,
            >((*final(ctx), event)),
            Err(VaultError::Rejected(code)) => *final(ctx) == *old(ctx) && extended_unlock(
                *old(ctx),
                extend_period,
            ) == Err::<i64, ErrorCode>(code),
            Err(VaultError::Program(_)) => *final(ctx) == *old(ctx) && extended_unlock(
                *old(ctx),
                extend_period,
            ) is Ok,
        },
        extended_unlock(*old(ctx), extend_period) matches Err(code) ==> res == Err::<
            ExtendEvent,
            VaultError,
        >(VaultError::Rejected(code)),
{
    if let Err(code) = instructions::extend::new_unlock_timestamp(ctx, extend_period) {
        return Err(VaultError::Rejected(code));
    }
    let now: i64 = match unix_timestamp() {
        Ok(now) => now,
        Err(failure) => {
            return Err(VaultError::Program(failure));
        },
    };
    match instructions::extend::handler(ctx, now, extend_period) {
        Ok(event) => Ok(event),
        Err(code) => Err(VaultError::Rejected(code)),
    }
}

/// Withdraws `amount`, at the time that the runtime's clock gives.
///
/// A request that is not signed is rejected before the clock is read. Otherwise the
/// clock is read once: if that fails, the runtime's error is handed on; if it gives a
/// time, the withdrawal is decided at that time, which the event carries as its
/// `timestamp`.
pub fn withdraw(ctx: &Withdraw, amount: u64) -> (res: Result<WithdrawReceipt, VaultError>)
    ensures
        match res {
            Ok(receipt) => withdraw_outcome(*ctx, receipt.event.timestamp, amount) == Ok::<
                WithdrawReceipt,
                ErrorCode,
            >(receipt),
            Err(VaultError::Rejected(code)) => exists|now: i64| #[trigger]
                withdraw_outcome(*ctx, now, amount) == Err::<WithdrawReceipt, ErrorCode>(code),
            Err(VaultError::Program(_)) => ctx.user.is_signer,
        },
        !ctx.user.is_signer ==> res == Err::<WithdrawReceipt, VaultError>(
            VaultError::Rejected(ErrorCode::MissingSignature),
        ),
{
    if !ctx.user.is_signer {
        assert(withdraw_outcome(*ctx, 0i64, amount) == Err::<WithdrawReceipt, ErrorCode>(
            ErrorCode::MissingSignature,
        ));
        return Err(VaultError::Rejected(ErrorCode::MissingSignature));
    }
    let now: i64 = match unix_timestamp() {
        Ok(now) => now,
        Err(failure) => {
            return Err(VaultError::Program(failure));
        },
    };
    match instructions::withdraw::handler(ctx, now, amount) {
        Ok(receipt) => Ok(receipt),
        Err(code) => Err(VaultError::Rejected(code)),
    }
}

} // verus!
