use crate::address::Address;
use crate::error::TokenError;
use crate::state::platform_config::PlatformConfig;
use vstd::prelude::*;

verus! {

/// The accounts of the instruction that creates the platform's
/// configuration.
#[derive(Clone, Copy, Debug, PartialEq, Eq)]
pub struct InitializePlatform {
    /// Who creates the configuration, and so becomes the admin.
    pub authority: Address,
    /// The configuration, if there is one already.
    pub platform_config: Option<PlatformConfig>,
    /// The bump of the configuration's address.
    pub bump: u8,
}

/// Creates the platform's configuration with the given treasury wallet and
/// oracle authority, and the caller as admin. This is done once: where a
/// configuration exists, the instruction is refused and nothing changes.
pub fn handler(
    ctx: &mut InitializePlatform,
    platform_wallet: Address,
    oracle_authority: Address,
) -> (r: Result<(), TokenError>)
    ensures
        old(ctx).platform_config is Some ==> r == Err::<(), TokenError>(
            TokenError::AlreadyInitialized,
        ) && *final(ctx) == *old(ctx),
        old(ctx).platform_config is None ==> r is Ok && *final(ctx) == (InitializePlatform {
            platform_config: Some(
                PlatformConfig {
                    platform_wallet,
                    oracle_authority,
                    authority: old(ctx).authority,
                    bump: old(ctx).bump,
                },
            ),
            ..*old(ctx)
        }),
{
    if ctx.platform_config.is_some() {
        return Err(TokenError::AlreadyInitialized);
    }
    ctx.platform_config = Some(
        PlatformConfig::new(platform_wallet, oracle_authority, ctx.authority, ctx.bump),
    );
    Ok(())
}

} // verus!
