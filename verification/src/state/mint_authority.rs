use crate::address::Address;
use vstd::prelude::*;

verus! {

/// A token's mint authority: the identity in whose name new units of the
/// token are issued. It is derived from the token's mint and holds no key;
/// the record keeps the bump that completes the derivation, which never
/// changes, and whether the token's first units were issued, which is set
/// once.
#[derive(Clone, Copy, Debug, PartialEq, Eq)]
pub struct MintAuthority {
    pub bump: u8,
    /// Whether the allocations to the creator and to the platform were
    /// issued.
    pub bootstrapped: bool,
}

/// A request to credit new units of a token to an account, signed by the
/// token's mint authority. The host carries it out, and refuses it where the
/// authority is not the one that the token's mint names.
#[derive(Clone, Copy, Debug, PartialEq, Eq)]
pub struct Issuance {
    /// The token of which units are issued.
    pub mint: Address,
    /// The token account that is credited.
    pub destination: Address,
    pub amount: u64,
    /// The bump of the authority that signs.
    pub authority_bump: u8,
}

/// The word that the derivation of a mint authority starts with:
/// `mint_authority` in ASCII.
pub open spec fn authority_seed() -> Seq<u8> {
    seq![109u8, 105, 110, 116, 95, 97, 117, 116, 104, 111, 114, 105, 116, 121]
}

impl MintAuthority {
    /// Bytes that the stored record takes: a tag of 8 bytes, the bump and
    /// the mark of the first issuance.
    pub const SPACE: usize = 8 + 1 + 1;

    /// The authority of a new token, which has issued nothing yet.
    pub fn new(bump: u8) -> (r: MintAuthority)
        ensures
            r == (MintAuthority { bump, bootstrapped: false }),
    {
        MintAuthority { bump, bootstrapped: false }
    }

    /// The request to credit `amount` units of the token `mint` to
    /// `destination` in this authority's name.
    pub fn issue(&self, mint: Address, destination: Address, amount: u64) -> (r: Issuance)
        ensures
            r == (Issuance { mint, destination, amount, authority_bump: self.bump }),
    {
        Issuance { mint, destination, amount, authority_bump: self.bump }
    }

    /// The seeds by which the authority signs for the token `mint`: the
    /// word, the mint's address, the bump.
    pub fn signer_seeds(&self, mint: &Address) -> (r: Vec<Vec<u8>>)
        ensures
            r@.len() == 3,
            r@[0]@ == authority_seed(),
            r@[1]@ == mint.bytes@,
            r@[2]@ == seq![self.bump],
    {
        let word: [u8; 14] = [109, 105, 110, 116, 95, 97, 117, 116, 104, 111, 114, 105, 116, 121];
        let mut first: Vec<u8> = Vec::new();
        let mut i: usize = 0;
        while i < 14
            invariant
                i <= 14,
                first@ == word@.subrange(0, i as int),
            decreases 14 - i,
        {
            first.push(word[i]);
            i += 1;
            assert(first@ =~= word@.subrange(0, i as int));
        }
        assert(first@ =~= authority_seed());
        let mut second: Vec<u8> = Vec::new();
        let mut j: usize = 0;
        while j < 32
            invariant
                j <= 32,
                second@ == mint.bytes@.subrange(0, j as int),
            decreases 32 - j,
        {
            second.push(mint.bytes[j]);
            j += 1;
            assert(second@ =~= mint.bytes@.subrange(0, j as int));
        }
        assert(second@ =~= mint.bytes@);
        let mut third: Vec<u8> = Vec::new();
        third.push(self.bump);
        assert(third@ =~= seq![self.bump]);
        let mut seeds: Vec<Vec<u8>> = Vec::new();
        seeds.push(first);
        seeds.push(second);
        seeds.push(third);
        seeds
    }
}

} // verus!
