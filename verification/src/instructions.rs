//! The program's instructions. Each has a record of the accounts that it
//! works on and a `handler` that applies the rules to them.
//!
//! A record that is created is created once. Where it exists already the
//! instruction is refused and nothing is overwritten; only a token's mint
//! authority, which several instructions share, is left as it is without an
//! error.

pub mod get_token_price;
pub mod get_vault_balance;
pub mod initialize_platform;
pub mod initialize_token_metadata;
pub mod initialize_token_oracle;
pub mod mint_token;
pub mod purchase_token;
pub mod setup_vault_account;
pub mod update_oracle;
pub mod update_platform;

pub use get_token_price::GetTokenPrice;
pub use get_vault_balance::GetVaultBalance;
pub use initialize_platform::InitializePlatform;
pub use initialize_token_metadata::InitializeTokenMetadata;
pub use initialize_token_oracle::InitializeTokenOracle;
pub use mint_token::MintToken;
pub use purchase_token::PurchaseToken;
pub use setup_vault_account::SetupVaultAccount;
pub use update_oracle::UpdateOracle;
pub use update_platform::UpdatePlatform;
