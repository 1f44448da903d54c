//! The records that the program keeps: one platform configuration, and for
//! each token its mint authority, its metadata, its oracle and its vault.

pub mod mint_authority;
pub mod oracle;
pub mod platform_config;
pub mod token_metadata;
pub mod token_vault;

pub use mint_authority::{Issuance, MintAuthority};
pub use oracle::{PriceParameters, ViewReport, ViewershipOracle};
pub use platform_config::PlatformConfig;
pub use token_metadata::TokenMetadata;
pub use token_vault::TokenVault;
