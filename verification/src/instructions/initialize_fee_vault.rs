use crate::errors::ErrorCode;
use crate::events::FeeVaultInitialized;
use crate::state::TokenAccount;
use anchor_lang::prelude::Pubkey;
use vstd::prelude::*;

verus! {

/// The accounts of the fee pool's creation, as the vault reads them. The pool is
/// `None` as long as it has not been created.
#[derive(Clone, Copy, Debug, PartialEq, Eq)]
pub struct InitializeFeeVault {
    /// The shared fee pool, once it exists.
    pub fee_vault: Option<TokenAccount>,
    /// The address at which the fee pool is created.
    pub fee_vault_key: Pubkey,
    /// The authority that will sign for the pool.
    pub vault_authority: Pubkey,
    pub token_mint: Pubkey,
    pub initializer: Pubkey,
}

/// What the vault answers to the creation of the fee pool: the accounts with the new
/// pool in them and the event, or the rejection.
pub open spec fn fee_pool_outcome(ctx: InitializeFeeVault) -> Result<
    (InitializeFeeVault, FeeVaultInitialized),
    ErrorCode,
> {
    if ctx.fee_vault is Some {
        Err(ErrorCode::AlreadyProvisioned)
    } else {
        Ok(
            (
                InitializeFeeVault {
                    fee_vault: Some(
                        TokenAccount {
                            key: ctx.fee_vault_key,
                            mint: ctx.token_mint,
                            owner: ctx.vault_authority,
                            amount: 0,
                        },
                    ),
                    ..ctx
                },
                FeeVaultInitialized {
                    initializer: ctx.initializer,
                    fee_vault: ctx.fee_vault_key,
                    token_mint: ctx.token_mint,
                },
            ),
        )
    }
}

/// The accounts as a creation of the fee pool leaves them, accepted or not.
pub open spec fn accounts_after(ctx: InitializeFeeVault) -> InitializeFeeVault {
    match fee_pool_outcome(ctx) {
        Ok((after, _)) => after,
        Err(_) => ctx,
    }
}

/// The fee pool is created once: on the accounts that an accepted creation leaves,
/// the next one is rejected with `AlreadyProvisioned`, and the pool stays as the first
/// one made it.
pub proof fn lemma_fee_pool_once(ctx: InitializeFeeVault)
    requires
        fee_pool_outcome(ctx) is Ok,
    ensures
        fee_pool_outcome(accounts_after(ctx)) == Err::<
            (InitializeFeeVault, FeeVaultInitialized),
            ErrorCode,
        >(ErrorCode::AlreadyProvisioned),
        accounts_after(accounts_after(ctx)) == accounts_after(ctx),
{
}

/// Creates the shared fee pool.
///
/// Accepted only while the pool does not exist; otherwise rejected with
/// `AlreadyProvisioned`, and then nothing changes. The new pool is empty, holds
/// `ctx.token_mint` and is under the vault's authority.
pub fn handler(ctx: &mut InitializeFeeVault) -> (res: Result<FeeVaultInitialized, ErrorCode>)
    ensures
        match res {
            Ok(event) => fee_pool_outcome(*old(ctx)) == Ok::<
                (InitializeFeeVault, FeeVaultInitialized),
                ErrorCode,
            >((*final(ctx), event)),
            Err(code) => fee_pool_outcome(*old(ctx)) == Err::<
                (InitializeFeeVault, FeeVaultInitialized),
                ErrorCode,
            >(code) && *final(ctx) == *old(ctx),
        },
        *final(ctx) == accounts_after(*old(ctx)),
        res is Ok <==> old(ctx).fee_vault is None,
        res is Err ==> res == Err::<FeeVaultInitialized, ErrorCode>(
            ErrorCode::AlreadyProvisioned,
        ),
{
    if ctx.fee_vault.is_some() {
        return Err(ErrorCode::AlreadyProvisioned);
    }
    ctx.fee_vault = Some(
        TokenAccount {
            key: ctx.fee_vault_key,
            mint: ctx.token_mint,
            owner: ctx.vault_authority,
            amount: 0,
        },
    );
    Ok(
        FeeVaultInitialized {
            initializer: ctx.initializer,
            fee_vault: ctx.fee_vault_key,
            token_mint: ctx.token_mint,
        },
    )
}

} // verus!
