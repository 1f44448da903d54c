use crate::accounts::Mint;
use crate::address::Address;
use crate::error::TokenError;
use crate::state::oracle::ViewershipOracle;
use crate::state::platform_config::PlatformConfig;
use vstd::prelude::*;

verus! {

/// The accounts of the instruction that reports a view count.
#[derive(Clone, Copy, Debug, PartialEq, Eq)]
pub struct UpdateOracle {
    pub oracle: ViewershipOracle,
    /// The token.
    pub mint: Mint,
    pub platform_config: PlatformConfig,
    /// Who signed the instruction.
    pub authority: Address,
}

/// The oracle as the instruction would leave it, were the new price to fit.
pub open spec fn updated_oracle(ctx: UpdateOracle, new_view_count: u64, now: i64) -> ViewershipOracle {
    ctx.oracle.after_update(ctx.platform_config, ctx.authority, new_view_count, now)
}

/// How the instruction answers: as the update of the oracle does, and, where
/// that succeeds, with the token's price at the new view count, or with an
/// overflow where that price is beyond 64 bits.
pub open spec fn outcome(ctx: UpdateOracle, new_view_count: u64, now: i64) -> Result<
    u64,
    TokenError,
> {
    match ctx.oracle.update_outcome(ctx.platform_config, ctx.authority, new_view_count) {
        Err(e) => Err(e),
        Ok(()) => updated_oracle(ctx, new_view_count, now).price_outcome_at(
            ctx.mint.supply as nat,
        ),
    }
}

/// Writes the view count that the signer reports at the time `now`, and
/// returns the token's new price for the record; the price is stored
/// nowhere. The instruction is refused to anyone but the oracle authority,
/// for a count below the one held, and where the new price would be beyond
/// 64 bits. A refused instruction changes nothing.
pub fn handler(ctx: &mut UpdateOracle, new_view_count: u64, now: i64) -> (r: Result<
    u64,
    TokenError,
>)
    ensures
        r == outcome(*old(ctx), new_view_count, now),
        r is Ok ==> *final(ctx) == (UpdateOracle {
            oracle: updated_oracle(*old(ctx), new_view_count, now),
            ..*old(ctx)
        }),
        r is Err ==> *final(ctx) == *old(ctx),
        final(ctx).oracle.view_count >= old(ctx).oracle.view_count,
{
    let mut oracle = ctx.oracle;
    match oracle.update_view_count(&ctx.platform_config, &ctx.authority, new_view_count, now) {
        Err(e) => Err(e),
        Ok(()) => match oracle.calculate_price(ctx.mint.supply) {
            Err(e) => Err(e),
            Ok(price) => {
                ctx.oracle = oracle;
                Ok(price)
            },
        },
    }
}

} // verus!
