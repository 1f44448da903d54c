use crate::address::Address;
use crate::error::TokenError;
use crate::state::mint_authority::MintAuthority;
use crate::state::token_metadata::{validation_outcome, TokenMetadata};
use vstd::prelude::*;
use vstd::utf8::encode_utf8;

verus! {

/// The accounts of the instruction that describes a token.
#[derive(Clone, Debug, PartialEq, Eq)]
pub struct InitializeTokenMetadata {
    pub payer: Address,
    /// The token's mint authority, if it was created already.
    pub mint_authority: Option<MintAuthority>,
    /// The bump of the mint authority's address.
    pub mint_authority_bump: u8,
    /// The token.
    pub mint: Address,
    /// The token's metadata under the given id, if there is any already.
    pub metadata: Option<TokenMetadata>,
}

/// The mint authority after the instruction: the one that was there, or a
/// new one with the given bump.
pub open spec fn authority_after(ctx: InitializeTokenMetadata) -> Option<MintAuthority> {
    match ctx.mint_authority {
        Some(a) => Some(a),
        None => Some(MintAuthority { bump: ctx.mint_authority_bump, bootstrapped: false }),
    }
}

/// Writes a token's metadata, and creates the token's mint authority where
/// there is none yet. Metadata is written once: where it exists the
/// instruction is refused. It is refused too where the name or the URI is
/// not accepted. A refused instruction changes nothing.
pub fn handler(ctx: &mut InitializeTokenMetadata, id: u64, name: String, music_uri: String) -> (r:
    Result<(), TokenError>)
    ensures
        old(ctx).metadata is Some ==> r == Err::<(), TokenError>(TokenError::AlreadyInitialized),
        old(ctx).metadata is None ==> r == validation_outcome(
            encode_utf8(name@),
            encode_utf8(music_uri@),
        ),
        r is Err ==> *final(ctx) == *old(ctx),
        r is Ok ==> *final(ctx) == (InitializeTokenMetadata {
            mint_authority: authority_after(*old(ctx)),
            metadata: Some(TokenMetadata { mint: old(ctx).mint, id, name, music_uri }),
            ..*old(ctx)
        }),
{
    if ctx.metadata.is_some() {
        return Err(TokenError::AlreadyInitialized);
    }
    match TokenMetadata::new(ctx.mint, id, name, music_uri) {
        Ok(metadata) => {
            ctx.metadata = Some(metadata);
            if ctx.mint_authority.is_none() {
                ctx.mint_authority = Some(MintAuthority::new(ctx.mint_authority_bump));
            }
            Ok(())
        },
        Err(e) => Err(e),
    }
}

} // verus!
