//! What the host knows of the accounts that an instruction touches, as far
//! as the rules read it.

use crate::address::Address;
use vstd::prelude::*;

verus! {

/// A wallet: its address and the base units that it holds.
#[derive(Clone, Copy, Debug, PartialEq, Eq)]
pub struct Wallet {
    pub key: Address,
    pub lamports: u64,
}

/// A token's mint: its address, which names the token, and the number of
/// units in circulation.
#[derive(Clone, Copy, Debug, PartialEq, Eq)]
pub struct Mint {
    pub key: Address,
    pub supply: u64,
}

} // verus!
