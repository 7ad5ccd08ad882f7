use crate::errors::ErrorCode;
use crate::events::VaultInitialized;
use crate::state::TokenAccount;
use crate::state::UserVault;
use anchor_lang::prelude::Pubkey;
use vstd::prelude::*;

verus! {

/// The accounts of a user's provisioning, as the vault reads them. The record and the
/// principal pool are `None` as long as they have not been created.
#[derive(Clone, Copy, Debug, PartialEq, Eq)]
pub struct InitializeVault {
    /// The user's record, once it exists.
    pub user_vault: Option<UserVault>,
    /// The user's principal pool, once it exists.
    pub token_vault: Option<TokenAccount>,
    /// The address at which the principal pool is created.
    pub token_vault_key: Pubkey,
    /// The authority that will sign for the pool.
    pub vault_authority: Pubkey,
    pub token_mint: Pubkey,
    pub user: Pubkey,
}

/// The record of a user who has not deposited yet.
pub open spec fn fresh_record(user: Pubkey, token_mint: Pubkey) -> UserVault {
    UserVault { user, token_mint, lock_period: 0, unlock_timestamp: 0 }
}

/// An empty pool of `mint` at `key`, under `owner`.
pub open spec fn empty_pool(key: Pubkey, mint: Pubkey, owner: Pubkey) -> TokenAccount {
    TokenAccount { key, mint, owner, amount: 0 }
}

/// What the vault answers to a provisioning: the accounts with the new record and the
/// new pool in them and the event, or the rejection.
pub open spec fn provision_outcome(ctx: InitializeVault) -> Result<
    (InitializeVault, VaultInitialized),
    ErrorCode,
> {
    if ctx.user_vault is Some || ctx.token_vault is Some {
        Err(ErrorCode::AlreadyProvisioned)
    } else {
        Ok(
            (
                InitializeVault {
                    user_vault: Some(fresh_record(ctx.user, ctx.token_mint)),
                    token_vault: Some(
                        empty_pool(ctx.token_vault_key, ctx.token_mint, ctx.vault_authority),
                    ),
                    ..ctx
                },
                VaultInitialized {
                    user: ctx.user,
                    vault: ctx.token_vault_key,
                    token_mint: ctx.token_mint,
                },
            ),
        )
    }
}

/// The accounts as a provisioning leaves them, accepted or not.
pub open spec fn accounts_after(ctx: InitializeVault) -> InitializeVault {
    match provision_outcome(ctx) {
        Ok((after, _)) => after,
        Err(_) => ctx,
    }
}

/// Provisioning twice fails the second time: on the accounts that an accepted
/// provisioning leaves, the next one is rejected with `AlreadyProvisioned`, and the
/// record and the pool that the first one made stay as they were made.
pub proof fn lemma_provision_once(ctx: InitializeVault)
    requires
        provision_outcome(ctx) is Ok,
    ensures
        provision_outcome(accounts_after(ctx)) == Err::<
            (InitializeVault, VaultInitialized),
            ErrorCode,
        >(ErrorCode::AlreadyProvisioned),
        accounts_after(accounts_after(ctx)) == accounts_after(ctx),
        accounts_after(ctx).user_vault == Some(fresh_record(ctx.user, ctx.token_mint)),
{
}

/// Creates the record and the principal pool of `ctx.user`, both at once.
///
/// Accepted only while neither exists; otherwise rejected with `AlreadyProvisioned`,
/// and then nothing changes. The new record names the user and the token and carries
/// no lock; the new pool is empty, holds the same token and is under the vault's
/// authority.
pub fn handler(ctx: &mut InitializeVault) -> (res: Result<VaultInitialized, ErrorCode>)
    ensures
        match res {
            Ok(event) => provision_outcome(*old(ctx)) == Ok::<
                (InitializeVault, VaultInitialized),
                ErrorCode,
            >((*final(ctx), event)),
            Err(code) => provision_outcome(*old(ctx)) == Err::<
                (InitializeVault, VaultInitialized),
                ErrorCode,
            >(code) && *final(ctx) == *old(ctx),
        },
        *final(ctx) == accounts_after(*old(ctx)),
        res is Ok <==> old(ctx).user_vault is None && old(ctx).token_vault is None,
        res is Err ==> res == Err::<VaultInitialized, ErrorCode>(ErrorCode::AlreadyProvisioned),
{
    if ctx.user_vault.is_some() || ctx.token_vault.is_some() {
        return Err(ErrorCode::AlreadyProvisioned);
    }
    ctx.user_vault = Some(
        UserVault { user: ctx.user, token_mint: ctx.token_mint, lock_period: 0, unlock_timestamp: 0 },
    );
    ctx.token_vault = Some(
        TokenAccount {
            key: ctx.token_vault_key,
            mint: ctx.token_mint,
            owner: ctx.vault_authority,
            amount: 0,
        },
    );
    Ok(VaultInitialized { user: ctx.user, vault: ctx.token_vault_key, token_mint: ctx.token_mint })
}

} // verus!
