use crate::address::Address;
use crate::error::TokenError;
use crate::state::oracle::{PriceParameters, ViewershipOracle, DEFAULT_K, DEFAULT_M};
use crate::state::token_vault::TokenVault;
use vstd::prelude::*;

verus! {

/// The accounts of the instruction that creates a token's oracle and vault.
#[derive(Clone, Copy, Debug, PartialEq, Eq)]
pub struct InitializeTokenOracle {
    pub payer: Address,
    /// The token.
    pub mint: Address,
    /// The token's oracle, if there is one already.
    pub oracle: Option<ViewershipOracle>,
    /// The bump of the oracle's address.
    pub oracle_bump: u8,
    /// The token's vault, if there is one already.
    pub token_vault: Option<TokenVault>,
    /// The bump of the vault's address.
    pub vault_bump: u8,
}

/// Creates a token's oracle, with no views and the default factors, and its
/// vault, with nothing bound and nothing collected. Both are created once:
/// where either exists the instruction is refused and nothing changes, so
/// that no view count and no collected amount is ever reset.
pub fn handler(ctx: &mut InitializeTokenOracle, now: i64) -> (r: Result<(), TokenError>)
    ensures
        old(ctx).oracle is Some || old(ctx).token_vault is Some ==> r == Err::<(), TokenError>(
            TokenError::AlreadyInitialized,
        ) && *final(ctx) == *old(ctx),
        old(ctx).oracle is None && old(ctx).token_vault is None ==> {
            &&& r is Ok
            &&& final(ctx).oracle == Some(
                ViewershipOracle {
                    mint: old(ctx).mint,
                    view_count: 0,
                    last_updated: now,
                    price_params: PriceParameters { k: DEFAULT_K, m: DEFAULT_M },
                    bump: old(ctx).oracle_bump,
                },
            )
            &&& final(ctx).token_vault is Some
            &&& TokenVault::is_new(
                final(ctx).token_vault->Some_0,
                old(ctx).mint,
                old(ctx).vault_bump,
            )
            &&& final(ctx).payer == old(ctx).payer
            &&& final(ctx).mint == old(ctx).mint
            &&& final(ctx).oracle_bump == old(ctx).oracle_bump
            &&& final(ctx).vault_bump == old(ctx).vault_bump
        },
{
    if ctx.oracle.is_some() || ctx.token_vault.is_some() {
        return Err(TokenError::AlreadyInitialized);
    }
    ctx.oracle = Some(ViewershipOracle::new(ctx.mint, now, ctx.oracle_bump));
    ctx.token_vault = Some(TokenVault::new(ctx.mint, ctx.vault_bump));
    Ok(())
}

} // verus!
