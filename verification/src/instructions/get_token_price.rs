use crate::accounts::Mint;
use crate::error::TokenError;
use crate::state::oracle::ViewershipOracle;
use vstd::prelude::*;

verus! {

/// The accounts of the query for a token's price.
#[derive(Clone, Copy, Debug, PartialEq, Eq)]
pub struct GetTokenPrice {
    /// The token.
    pub mint: Mint,
    pub oracle: ViewershipOracle,
}

/// The price of one token at the supply that circulates now. It is refused
/// exactly where it is beyond 64 bits.
pub fn handler(ctx: &GetTokenPrice) -> (r: Result<u64, TokenError>)
    ensures
        r == ctx.oracle.price_outcome_at(ctx.mint.supply as nat),
{
    ctx.oracle.calculate_price(ctx.mint.supply)
}

} // verus!
