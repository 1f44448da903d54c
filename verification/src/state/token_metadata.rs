use crate::address::Address;
use crate::error::TokenError;
use vstd::prelude::*;
use vstd::utf8::{encode_utf8, is_ascii_chars, is_ascii_chars_encode_utf8};

verus! {

/// The longest name, in bytes of UTF-8.
pub const MAX_NAME_LEN: usize = 16;

/// The longest URI, in bytes of UTF-8.
pub const MAX_URI_LEN: usize = 44;

/// What describes a token: written once, when the token is set up, and
/// never changed.
#[derive(Clone, Debug, PartialEq, Eq)]
pub struct TokenMetadata {
    /// The token that is described.
    pub mint: Address,
    pub id: u64,
    pub name: String,
    pub music_uri: String,
}

/// `bytes` begins with `prefix`.
pub open spec fn starts_with(bytes: Seq<u8>, prefix: Seq<u8>) -> bool {
    prefix.len() <= bytes.len() && bytes.subrange(0, prefix.len() as int) == prefix
}

/// `http://` in ASCII.
pub open spec fn http_scheme() -> Seq<u8> {
    seq![104u8, 116, 116, 112, 58, 47, 47]
}

/// `https://` in ASCII.
pub open spec fn https_scheme() -> Seq<u8> {
    seq![104u8, 116, 116, 112, 115, 58, 47, 47]
}

/// `ipfs://` in ASCII.
pub open spec fn ipfs_scheme() -> Seq<u8> {
    seq![105u8, 112, 102, 115, 58, 47, 47]
}

/// The URI, as bytes, begins with one of the three schemes that are
/// recognized.
pub open spec fn has_known_scheme(uri: Seq<u8>) -> bool {
    starts_with(uri, http_scheme()) || starts_with(uri, https_scheme()) || starts_with(
        uri,
        ipfs_scheme(),
    )
}

/// How a name and a URI, each as bytes of UTF-8, are judged: the name's
/// length first, then the URI's, then the URI's scheme.
pub open spec fn validation_outcome(name: Seq<u8>, uri: Seq<u8>) -> Result<(), TokenError> {
    if name.len() > MAX_NAME_LEN {
        Err(TokenError::NameTooLong)
    } else if uri.len() > MAX_URI_LEN {
        Err(TokenError::UriTooLong)
    } else if !has_known_scheme(uri) {
        Err(TokenError::InvalidUriFormat)
    } else {
        Ok(())
    }
}

/// Text takes at least one byte for each of its characters.
pub proof fn lemma_utf8_is_no_shorter(text: Seq<char>)
    ensures
        encode_utf8(text).len() >= text.len(),
    decreases text.len(),
{
    if text.len() > 0 {
        lemma_utf8_is_no_shorter(text.drop_first());
    }
}

/// For a name and a URI in ASCII the limits count characters: the name is
/// too long exactly where it has more than 16, and, the name being
/// accepted, the URI exactly where it has more than 44.
pub proof fn lemma_ascii_is_counted_in_characters(name: Seq<char>, uri: Seq<char>)
    requires
        is_ascii_chars(name),
        is_ascii_chars(uri),
    ensures
        name.len() > MAX_NAME_LEN <==> validation_outcome(encode_utf8(name), encode_utf8(uri))
            == Err::<(), TokenError>(TokenError::NameTooLong),
        name.len() <= MAX_NAME_LEN && uri.len() > MAX_URI_LEN <==> validation_outcome(
            encode_utf8(name),
            encode_utf8(uri),
        ) == Err::<(), TokenError>(TokenError::UriTooLong),
{
    is_ascii_chars_encode_utf8(name);
    is_ascii_chars_encode_utf8(uri);
}

fn begins_with(bytes: &[u8], prefix: &[u8]) -> (r: bool)
    ensures
        r == starts_with(bytes@, prefix@),
{
    if prefix.len() > bytes.len() {
        return false;
    }
    let mut i: usize = 0;
    while i < prefix.len()
        invariant
            i <= prefix.len() <= bytes.len(),
            bytes@.subrange(0, i as int) == prefix@.subrange(0, i as int),
        decreases prefix.len() - i,
    {
        if bytes[i] != prefix[i] {
            assert(bytes@.subrange(0, prefix.len() as int)[i as int] != prefix@[i as int]);
            return false;
        }
        i += 1;
        assert(bytes@.subrange(0, i as int) =~= bytes@.subrange(0, i - 1).push(bytes@[i - 1]));
        assert(prefix@.subrange(0, i as int) =~= prefix@.subrange(0, i - 1).push(
            prefix@[i - 1],
        ));
    }
    assert(prefix@.subrange(0, i as int) =~= prefix@);
    true
}

fn known_scheme(uri: &[u8]) -> (r: bool)
    ensures
        r == has_known_scheme(uri@),
{
    let http: [u8; 7] = [104, 116, 116, 112, 58, 47, 47];
    let https: [u8; 8] = [104, 116, 116, 112, 115, 58, 47, 47];
    let ipfs: [u8; 7] = [105, 112, 102, 115, 58, 47, 47];
    assert(http@ =~= http_scheme());
    assert(https@ =~= https_scheme());
    assert(ipfs@ =~= ipfs_scheme());
    begins_with(uri, http.as_slice()) || begins_with(uri, https.as_slice()) || begins_with(
        uri,
        ipfs.as_slice(),
    )
}

impl TokenMetadata {
    /// Bytes that the stored record takes: a tag of 8 bytes, the mint, the
    /// id, and the two strings, each with a length of 4 bytes before it.
    pub const SPACE: usize = 8 + 32 + 8 + (4 + 16) + (4 + 44);

    /// Judges a name and a URI. What is accepted has at most 16 and at most
    /// 44 characters.
    pub fn validate(name: &str, music_uri: &str) -> (r: Result<(), TokenError>)
        ensures
            r == validation_outcome(encode_utf8(name@), encode_utf8(music_uri@)),
            r is Ok ==> name@.len() <= MAX_NAME_LEN && music_uri@.len() <= MAX_URI_LEN,
    {
        proof {
            lemma_utf8_is_no_shorter(name@);
            lemma_utf8_is_no_shorter(music_uri@);
        }
        if name.as_bytes().len() > MAX_NAME_LEN {
            return Err(TokenError::NameTooLong);
        }
        if music_uri.as_bytes().len() > MAX_URI_LEN {
            return Err(TokenError::UriTooLong);
        }
        if !known_scheme(music_uri.as_bytes()) {
            return Err(TokenError::InvalidUriFormat);
        }
        Ok(())
    }

    /// The metadata of the token `mint`, where the name and the URI are
    /// accepted.
    pub fn new(mint: Address, id: u64, name: String, music_uri: String) -> (r: Result<
        TokenMetadata,
        TokenError,
    >)
        ensures
            match validation_outcome(encode_utf8(name@), encode_utf8(music_uri@)) {
                Ok(()) => r == Ok::<TokenMetadata, TokenError>(
                    TokenMetadata { mint, id, name, music_uri },
                ),
                Err(e) => r == Err::<TokenMetadata, TokenError>(e),
            },
    {
        match TokenMetadata::validate(name.as_str(), music_uri.as_str()) {
            Ok(()) => Ok(TokenMetadata { mint, id, name, music_uri }),
            Err(e) => Err(e),
        }
    }
}

} // verus!
