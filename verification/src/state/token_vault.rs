use crate::address::Address;
use crate::error::TokenError;
use vstd::prelude::*;

verus! {

/// What a new vault must have collected before it signals that a liquidity
/// pool could be seeded.
pub const DEFAULT_LIQUIDITY_THRESHOLD: u64 = 10_000_000_000;

/// A token's vault: where the buyers' payments go, and how much has come in.
#[derive(Clone, Copy, Debug, PartialEq, Eq)]
pub struct TokenVault {
    /// The token that this vault belongs to.
    pub mint: Address,
    /// The vault's own token account.
    pub vault_account: Address,
    /// The wallet that collects the payments.
    pub sol_vault_wallet: Address,
    /// The liquidity pool of this token, once there is one.
    pub raydium_pool: Option<Address>,
    /// The collected amount from which on the vault signals that it is ready
    /// for a liquidity pool.
    pub liquidity_threshold: u64,
    /// Everything that purchases have paid into the vault. It never goes
    /// down.
    pub total_collected: u64,
    pub bump: u8,
}

impl TokenVault {
    /// Bytes that the stored record takes: a tag of 8 bytes, three addresses,
    /// the optional pool, the two amounts and the bump.
    pub const SPACE: usize = 8 + 32 + 32 + 32 + (1 + 32) + 8 + 8 + 1;

    /// Whether `v` is the vault of a new token: nothing bound, nothing
    /// collected, no pool, the default threshold.
    pub open spec fn is_new(v: TokenVault, mint: Address, bump: u8) -> bool {
        &&& v.mint == mint
        &&& v.vault_account.is_zero()
        &&& v.sol_vault_wallet.is_zero()
        &&& v.raydium_pool is None
        &&& v.liquidity_threshold == DEFAULT_LIQUIDITY_THRESHOLD
        &&& v.total_collected == 0
        &&& v.bump == bump
    }

    /// The vault of a new token.
    pub fn new(mint: Address, bump: u8) -> (r: TokenVault)
        ensures
            TokenVault::is_new(r, mint, bump),
            !r.is_bound(),
    {
        TokenVault {
            mint,
            vault_account: Address::zero(),
            sol_vault_wallet: Address::zero(),
            raydium_pool: None,
            liquidity_threshold: DEFAULT_LIQUIDITY_THRESHOLD,
            total_collected: 0,
            bump,
        }
    }

    /// Whether a collecting wallet or a token account was bound to the vault.
    pub open spec fn is_bound(self) -> bool {
        !self.sol_vault_wallet.is_zero() || !self.vault_account.is_zero()
    }

    /// Tells whether a collecting wallet or a token account was bound.
    pub fn check_bound(&self) -> (r: bool)
        ensures
            r == self.is_bound(),
    {
        !self.sol_vault_wallet.check_zero() || !self.vault_account.check_zero()
    }

    /// Binds the vault's token account and its collecting wallet. A vault is
    /// bound once: a second binding is refused and changes nothing, so that
    /// payments cannot be led to another wallet.
    pub fn setup(&mut self, vault_account: Address, sol_vault_wallet: Address) -> (r: Result<
        (),
        TokenError,
    >)
        ensures
            old(self).is_bound() ==> r == Err::<(), TokenError>(TokenError::AlreadyInitialized)
                && *final(self) == *old(self),
            !old(self).is_bound() ==> r is Ok && *final(self) == (TokenVault {
                vault_account,
                sol_vault_wallet,
                ..*old(self)
            }),
    {
        if self.check_bound() {
            return Err(TokenError::AlreadyInitialized);
        }
        self.vault_account = vault_account;
        self.sol_vault_wallet = sol_vault_wallet;
        Ok(())
    }

    /// Whether the vault has collected as much as its threshold asks.
    pub open spec fn threshold_reached(self) -> bool {
        self.total_collected >= self.liquidity_threshold
    }

    /// Tells whether the vault has collected as much as its threshold asks.
    /// This is a signal only: nothing creates a pool on it.
    pub fn liquidity_ready(&self) -> (r: bool)
        ensures
            r == self.threshold_reached(),
    {
        self.total_collected >= self.liquidity_threshold
    }

    /// Adds a payment to what the vault has collected. Where the sum leaves
    /// 64 bits the payment is refused and nothing changes.
    pub fn collect(&mut self, amount: u64) -> (r: Result<(), TokenError>)
        ensures
            old(self).total_collected + amount <= u64::MAX ==> r is Ok && *final(self) == (
            TokenVault { total_collected: (old(self).total_collected + amount) as u64, ..*old(self) }),
            old(self).total_collected + amount > u64::MAX ==> r == Err::<(), TokenError>(
                TokenError::SupplyOverflow,
            ) && *final(self) == *old(self),
            final(self).total_collected >= old(self).total_collected,
    {
        match self.total_collected.checked_add(amount) {
            Some(total) => {
                self.total_collected = total;
                Ok(())
            },
            None => Err(TokenError::SupplyOverflow),
        }
    }
}

} // verus!
