use crate::address::Address;
use crate::error::TokenError;
use vstd::prelude::*;

verus! {

/// The platform's one configuration record.
#[derive(Clone, Copy, Debug, PartialEq, Eq)]
pub struct PlatformConfig {
    /// The treasury: the wallet that receives the platform's fee.
    pub platform_wallet: Address,
    /// The only caller allowed to report view counts.
    pub oracle_authority: Address,
    /// The admin: the only caller allowed to change this record.
    pub authority: Address,
    pub bump: u8,
}

impl PlatformConfig {
    /// Bytes that the stored record takes: a tag of 8 bytes, three addresses
    /// and the bump.
    pub const SPACE: usize = 8 + 32 + 32 + 32 + 1;

    /// The record as it is first written: `authority`, who creates it,
    /// becomes the admin.
    pub fn new(
        platform_wallet: Address,
        oracle_authority: Address,
        authority: Address,
        bump: u8,
    ) -> (r: PlatformConfig)
        ensures
            r == (PlatformConfig { platform_wallet, oracle_authority, authority, bump }),
    {
        PlatformConfig { platform_wallet, oracle_authority, authority, bump }
    }

    /// The record after an update that `caller` asks for: unchanged unless
    /// `caller` is the admin; else with the new treasury, and with the new
    /// oracle authority where one is given.
    pub open spec fn after_update(
        self,
        caller: Address,
        new_platform_wallet: Address,
        new_oracle_authority: Option<Address>,
    ) -> PlatformConfig {
        if caller != self.authority {
            self
        } else {
            PlatformConfig {
                platform_wallet: new_platform_wallet,
                oracle_authority: match new_oracle_authority {
                    Some(a) => a,
                    None => self.oracle_authority,
                },
                authority: self.authority,
                bump: self.bump,
            }
        }
    }

    /// Replaces the treasury wallet and, where one is given, the oracle
    /// authority. Only the admin may do so.
    pub fn update(
        &mut self,
        caller: &Address,
        new_platform_wallet: Address,
        new_oracle_authority: Option<Address>,
    ) -> (r: Result<(), TokenError>)
        ensures
            *caller == old(self).authority ==> r is Ok,
            *caller != old(self).authority ==> r == Err::<(), TokenError>(
                TokenError::UnauthorizedPlatformUpdate,
            ),
            *final(self) == old(self).after_update(
                *caller,
                new_platform_wallet,
                new_oracle_authority,
            ),
    {
        if *caller != self.authority {
            return Err(TokenError::UnauthorizedPlatformUpdate);
        }
        self.platform_wallet = new_platform_wallet;
        if let Some(new_authority) = new_oracle_authority {
            self.oracle_authority = new_authority;
        }
        Ok(())
    }
}

} // verus!
