use crate::constants::MAX_EXTEND_PERIOD;
use crate::errors::ErrorCode;
use crate::events::ExtendEvent;
use crate::state::Signer;
use crate::state::TokenAccount;
use crate::state::UserVault;
use vstd::prelude::*;

verus! {

/// The accounts of an extension, as the vault reads them.
#[derive(Clone, Copy, Debug, PartialEq, Eq)]
pub struct Extend {
    /// The user's record.
    pub user_vault: UserVault,
    /// The user, who has to sign.
    pub user: Signer,
    /// The user's principal pool.
    pub token_vault: TokenAccount,
}

/// Whether an extension may ask for this period.
pub open spec fn valid_extend_period(extend_period: u64) -> bool {
    0 < extend_period <= MAX_EXTEND_PERIOD
}

/// What the vault answers to an extension by `extend_period`, before any clock is
/// read: the record's new unlock time, or the rejection.
pub open spec fn extended_unlock(ctx: Extend, extend_period: u64) -> Result<i64, ErrorCode> {
    if !ctx.user.is_signer {
        Err(ErrorCode::MissingSignature)
    } else if !valid_extend_period(extend_period) {
        Err(ErrorCode::InvalidExtendPeriod)
    } else if ctx.user_vault.unlock_timestamp + extend_period > i64::MAX {
        Err(ErrorCode::ArithmeticError)
    } else {
        Ok((ctx.user_vault.unlock_timestamp + extend_period) as i64)
    }
}

/// What the vault answers to an extension by `extend_period` at time `now`: the
/// accounts as the extension leaves them and the event, or the rejection.
pub open spec fn extend_outcome(ctx: Extend, now: i64, extend_period: u64) -> Result<
    (Extend, ExtendEvent),
    ErrorCode,
> {
    match extended_unlock(ctx, extend_period) {
        Err(code) => Err(code),
        Ok(unlock_timestamp) => Ok(
            (
                Extend { user_vault: UserVault { unlock_timestamp, ..ctx.user_vault }, ..ctx },
                ExtendEvent {
                    user: ctx.user.key,
                    vault: ctx.token_vault.key,
                    extend_period,
                    unlock_timestamp,
                    timestamp: now,
                },
            ),
        ),
    }
}

/// An accepted extension moves the unlock time forward by exactly its period, so the
/// unlock time never goes back; a second accepted extension adds its own period to
/// that.
pub proof fn lemma_extensions_add_up(ctx: Extend, now: i64, first: u64, later: i64, second: u64)
    requires
        extend_outcome(ctx, now, first) is Ok,
        extend_outcome(extend_outcome(ctx, now, first)->Ok_0.0, later, second) is Ok,
    ensures
        extend_outcome(ctx, now, first)->Ok_0.0.user_vault.unlock_timestamp
            == ctx.user_vault.unlock_timestamp + first,
        extend_outcome(ctx, now, first)->Ok_0.0.user_vault.unlock_timestamp
            > ctx.user_vault.unlock_timestamp,
        extend_outcome(
            extend_outcome(ctx, now, first)->Ok_0.0,
            later,
            second,
        )->Ok_0.0.user_vault.unlock_timestamp == ctx.user_vault.unlock_timestamp + first + second,
{
}

/// The unlock time that an extension by `extend_period` would set, or why the vault
/// rejects it. This needs no clock and changes nothing.
pub fn new_unlock_timestamp(ctx: &Extend, extend_period: u64) -> (res: Result<i64, ErrorCode>)
    ensures
        res == extended_unlock(*ctx, extend_period),
{
    if !ctx.user.is_signer {
        return Err(ErrorCode::MissingSignature);
    }
    if extend_period == 0 || extend_period > MAX_EXTEND_PERIOD {
        return Err(ErrorCode::InvalidExtendPeriod);
    }
    match ctx.user_vault.unlock_timestamp.checked_add(extend_period as i64) {
        Some(unlock_timestamp) => Ok(unlock_timestamp),
        None => Err(ErrorCode::ArithmeticError),
    }
}

/// Decides an extension by `extend_period` at time `now`.
///
/// The user must have signed, the period must lie in `1..=MAX_EXTEND_PERIOD`, and the
/// new unlock time must fit the clock's type. The record's unlock time then grows by
/// exactly `extend_period`; nothing else changes and no tokens move. A rejection
/// changes nothing at all. The time `now` only dates the event.
pub fn handler(ctx: &mut Extend, now: i64, extend_period: u64) -> (res: Result<
    ExtendEvent,
    ErrorCode,
>)
    ensures
        match res {
            Ok(event) => extend_outcome(*old(ctx), now, extend_period) == Ok::<
                (Extend, ExtendEvent),
                ErrorCode,
            >((*final(ctx), event)),
            Err(code) => extend_outcome(*old(ctx), now, extend_period) == Err::<
                (Extend, ExtendEvent),
                ErrorCode,
            >(code) && *final(ctx) == *old(ctx),
        },
        !old(ctx).user.is_signer ==> res == Err::<ExtendEvent, ErrorCode>(
            ErrorCode::MissingSignature,
        ),
        res is Ok ==> {
            &&& final(ctx).user_vault.unlock_timestamp == old(ctx).user_vault.unlock_timestamp
                + extend_period
            &&& final(ctx).user_vault.unlock_timestamp > old(ctx).user_vault.unlock_timestamp
            &&& final(ctx).user_vault.lock_period == old(ctx).user_vault.lock_period
            &&& final(ctx).user_vault.user == old(ctx).user_vault.user
            &&& final(ctx).user_vault.token_mint == old(ctx).user_vault.token_mint
        },
{
    let unlock_timestamp: i64 = match new_unlock_timestamp(ctx, extend_period) {
        Ok(unlock_timestamp) => unlock_timestamp,
        Err(code) => {
            return Err(code);
        },
    };
    ctx.user_vault.unlock_timestamp = unlock_timestamp;
    Ok(
        ExtendEvent {
            user: ctx.user.key,
            vault: ctx.token_vault.key,
            extend_period,
            unlock_timestamp,
            timestamp: now,
        },
    )
}

} // verus!
