use crate::address::Address;
use crate::error::TokenError;
use crate::state::platform_config::PlatformConfig;
use vstd::prelude::*;

verus! {

/// The accounts of the instruction that changes the platform's
/// configuration.
#[derive(Clone, Copy, Debug, PartialEq, Eq)]
pub struct UpdatePlatform {
    pub platform_config: PlatformConfig,
    /// Who signed the instruction.
    pub authority: Address,
}

/// Replaces the treasury wallet and, where one is given, the oracle
/// authority. Only the admin may do so: for any other signer the
/// instruction is refused and nothing changes.
pub fn handler(
    ctx: &mut UpdatePlatform,
    new_platform_wallet: Address,
    new_oracle_authority: Option<Address>,
) -> (r: Result<(), TokenError>)
    ensures
        old(ctx).authority == old(ctx).platform_config.authority ==> r is Ok,
        old(ctx).authority != old(ctx).platform_config.authority ==> r == Err::<(), TokenError>(
            TokenError::UnauthorizedPlatformUpdate,
        ) && *final(ctx) == *old(ctx),
        final(ctx).authority == old(ctx).authority,
        final(ctx).platform_config == old(ctx).platform_config.after_update(
            old(ctx).authority,
            new_platform_wallet,
            new_oracle_authority,
        ),
{
    let signer = ctx.authority;
    ctx.platform_config.update(&signer, new_platform_wallet, new_oracle_authority)
}

} // verus!
