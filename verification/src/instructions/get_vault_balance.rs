use crate::accounts::{Mint, Wallet};
use crate::state::token_vault::TokenVault;
use vstd::prelude::*;

verus! {

/// The accounts of the query for a vault's balance.
#[derive(Clone, Copy, Debug, PartialEq, Eq)]
pub struct GetVaultBalance {
    pub token_vault: TokenVault,
    /// The token.
    pub mint: Mint,
    /// The wallet that collects the vault's payments, as it stands now.
    pub sol_vault_wallet: Wallet,
}

/// A vault's balance, from both sources.
#[derive(Clone, Copy, Debug, PartialEq, Eq)]
pub struct VaultBalance {
    /// What the collecting wallet holds now.
    pub balance: u64,
    /// What the vault has recorded as collected.
    pub total_collected: u64,
}

/// What the collecting wallet holds now. This is the wallet's own balance,
/// not the amount that the vault has recorded: the two may differ, for
/// instance after funds were withdrawn.
pub fn handler(ctx: &GetVaultBalance) -> (r: u64)
    ensures
        r == ctx.sol_vault_wallet.lamports,
{
    ctx.sol_vault_wallet.lamports
}

/// Both figures side by side, for a cross-check.
pub fn report(ctx: &GetVaultBalance) -> (r: VaultBalance)
    ensures
        r.balance == ctx.sol_vault_wallet.lamports,
        r.total_collected == ctx.token_vault.total_collected,
{
    VaultBalance {
        balance: ctx.sol_vault_wallet.lamports,
        total_collected: ctx.token_vault.total_collected,
    }
}

} // verus!
