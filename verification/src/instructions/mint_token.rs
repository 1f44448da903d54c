use crate::accounts::Mint;
use crate::address::Address;
use crate::error::TokenError;
use crate::state::mint_authority::{Issuance, MintAuthority};
use vstd::prelude::*;

verus! {

/// The nominal number of units of a token, of which the first allocations
/// are a share.
pub const NOMINAL_BASE: u64 = 1_000_000;

/// The share of the nominal base that the creator and the platform each
/// receive, in percent.
pub const ALLOCATION_PERCENT: u64 = 5;

/// What the creator and the platform each receive when a token is set up:
/// five percent of the nominal base.
pub const ALLOCATION: u64 = 50_000;

/// The allocation is the share of the base that it is said to be.
pub proof fn lemma_allocation()
    ensures
        ALLOCATION == NOMINAL_BASE * ALLOCATION_PERCENT / 100,
{
}

/// The accounts of the instruction that issues a token's first units.
#[derive(Clone, Copy, Debug, PartialEq, Eq)]
pub struct MintToken {
    pub payer: Address,
    pub mint_authority: MintAuthority,
    /// The token, and how many units of it circulate.
    pub mint: Mint,
    /// The creator's token account.
    pub token_account: Address,
    /// The platform's token account.
    pub platform_token_account: Address,
}

/// The two issuances that set a token up: the allocation to the creator,
/// then the same to the platform, both in the name of the token's mint
/// authority.
pub open spec fn first_issuances(ctx: MintToken) -> Seq<Issuance> {
    seq![
        Issuance {
            mint: ctx.mint.key,
            destination: ctx.token_account,
            amount: ALLOCATION,
            authority_bump: ctx.mint_authority.bump,
        },
        Issuance {
            mint: ctx.mint.key,
            destination: ctx.platform_token_account,
            amount: ALLOCATION,
            authority_bump: ctx.mint_authority.bump,
        },
    ]
}

/// The accounts after the first issuance: the authority is marked, and the
/// two allocations circulate.
pub open spec fn bootstrapped(ctx: MintToken) -> MintToken {
    MintToken {
        mint_authority: MintAuthority { bootstrapped: true, ..ctx.mint_authority },
        mint: Mint { supply: (ctx.mint.supply + 2 * ALLOCATION) as u64, ..ctx.mint },
        ..ctx
    }
}

/// Issues a token's first units, once.
///
/// Where the authority has not issued them yet, the two issuances are
/// returned for the host to carry out, the authority is marked and the
/// supply grows by both allocations; this is refused, and nothing changes,
/// where the supply would leave 64 bits. Where the authority is marked
/// already, nothing is issued and nothing changes.
pub fn handler(ctx: &mut MintToken) -> (r: Result<Vec<Issuance>, TokenError>)
    ensures
        old(ctx).mint_authority.bootstrapped ==> r is Ok && r->Ok_0@ == Seq::<Issuance>::empty()
            && *final(ctx) == *old(ctx),
        !old(ctx).mint_authority.bootstrapped && old(ctx).mint.supply + 2 * ALLOCATION
            > u64::MAX ==> r is Err && r->Err_0 == TokenError::SupplyOverflow && *final(ctx)
            == *old(ctx),
        !old(ctx).mint_authority.bootstrapped && old(ctx).mint.supply + 2 * ALLOCATION
            <= u64::MAX ==> r is Ok && r->Ok_0@ == first_issuances(*old(ctx)) && *final(ctx)
            == bootstrapped(*old(ctx)),
{
    let mut issued: Vec<Issuance> = Vec::new();
    if ctx.mint_authority.bootstrapped {
        return Ok(issued);
    }
    let supply: u64 = match ctx.mint.supply.checked_add(2 * ALLOCATION) {
        Some(s) => s,
        None => {
            return Err(TokenError::SupplyOverflow);
        },
    };
    issued.push(ctx.mint_authority.issue(ctx.mint.key, ctx.token_account, ALLOCATION));
    issued.push(ctx.mint_authority.issue(ctx.mint.key, ctx.platform_token_account, ALLOCATION));
    ctx.mint_authority.bootstrapped = true;
    ctx.mint.supply = supply;
    assert(issued@ =~= first_issuances(*old(ctx)));
    Ok(issued)
}

} // verus!
