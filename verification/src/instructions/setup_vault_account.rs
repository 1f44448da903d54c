use crate::address::Address;
use crate::error::TokenError;
use crate::state::token_vault::TokenVault;
use vstd::prelude::*;

verus! {

/// The accounts of the instruction that binds a vault.
#[derive(Clone, Copy, Debug, PartialEq, Eq)]
pub struct SetupVaultAccount {
    /// Who pays for the vault's token account. Their wallet becomes the one
    /// that collects the vault's payments.
    pub payer: Address,
    /// The token.
    pub mint: Address,
    pub token_vault: TokenVault,
    /// The vault's token account.
    pub vault_token_account: Address,
}

/// Binds the vault to its token account and to the payer's wallet, which
/// from then on collects the payments. A vault is bound once: where it is
/// bound already the instruction is refused and nothing changes.
pub fn handler(ctx: &mut SetupVaultAccount) -> (r: Result<(), TokenError>)
    ensures
        old(ctx).token_vault.is_bound() ==> r == Err::<(), TokenError>(
            TokenError::AlreadyInitialized,
        ) && *final(ctx) == *old(ctx),
        !old(ctx).token_vault.is_bound() ==> r is Ok && *final(ctx) == (SetupVaultAccount {
            token_vault: TokenVault {
                vault_account: old(ctx).vault_token_account,
                sol_vault_wallet: old(ctx).payer,
                ..old(ctx).token_vault
            },
            ..*old(ctx)
        }),
{
    let account = ctx.vault_token_account;
    let wallet = ctx.payer;
    ctx.token_vault.setup(account, wallet)
}

} // verus!
