//! A per-token economy on a bonding curve: the price of a token rises with
//! its circulating supply and with a view count that an oracle reports, and
//! every purchase is split between the platform treasury and the token's
//! vault.
//!
//! The crate holds the rules only. Moving funds, crediting tokens and
//! reading the clock are left to the host, which hands in plain values and
//! carries out the actions that the functions here return.

pub mod accounts;
pub mod address;
pub mod curve;
pub mod error;
pub mod instructions;
pub mod sqrt;
pub mod state;
pub mod wide;
