//! The mnemonic codec: a 32-byte secret as a checksummed BIP-39 phrase.
//!
//! The word list, the checksum and the parsing are the `bip39` crate's; this
//! module binds to them and keeps only phrases that carry a whole secret.

use bip39::Mnemonic;
use crate::error::BlobError;
use crate::key_material::entropy_to_key;
use std::str::FromStr;
use vstd::prelude::*;

verus! {

/// Bytes of entropy in a secret.
pub const SECRET_LEN: usize = 32;

/// The English phrase that `bip39` writes for `entropy`.
pub uninterp spec fn mnemonic_phrase(entropy: Seq<u8>) -> Seq<char>;

/// The entropy that `bip39` reads out of `phrase`; `None` where it rejects
/// the phrase (unknown word, bad word count, checksum mismatch).
pub uninterp spec fn phrase_entropy(phrase: Seq<char>) -> Option<Seq<u8>>;

/// The secret that a phrase carries: its entropy, where that is 32 bytes.
pub open spec fn secret_of(phrase: Seq<char>) -> Option<Seq<u8>> {
    match phrase_entropy(phrase) {
        Some(entropy) => if entropy.len() == SECRET_LEN {
            Some(entropy)
        } else {
            None
        },
        None => None,
    }
}

/// Writes the phrase with `bip39::Mnemonic::from_entropy` and its `Display`.
///
/// Trusted: 32 bytes are always accepted; the result is the one named
/// [`mnemonic_phrase`], and parsing it gives the entropy back.
#[verifier::external_body]
fn phrase_from_entropy(entropy: &[u8; 32]) -> (phrase: Option<String>)
    ensures
        phrase is Some,
        phrase matches Some(p) ==> p@ == mnemonic_phrase(entropy@),
        phrase matches Some(p) ==> phrase_entropy(p@) == Some(entropy@),
{
    let mnemonic = Mnemonic::from_entropy(entropy).ok()?;
    Some(mnemonic.to_string())
}

/// Parses the phrase with `bip39::Mnemonic::from_str` and reads its entropy
/// with `to_entropy`.
///
/// Trusted: the result is the one named [`phrase_entropy`].
#[verifier::external_body]
fn entropy_from_phrase(phrase: &str) -> (entropy: Option<Vec<u8>>)
    ensures
        entropy matches Some(e) ==> phrase_entropy(phrase@) == Some(e@),
        entropy is None ==> phrase_entropy(phrase@) is None,
{
    let mnemonic = Mnemonic::from_str(phrase).ok()?;
    Some(mnemonic.to_entropy())
}

/// The phrase for a secret. Reading the phrase gives the secret back.
pub fn entropy_to_mnemonic(entropy: &[u8; 32]) -> (phrase: String)
    ensures
        phrase@ == mnemonic_phrase(entropy@),
        secret_of(phrase@) == Some(entropy@),
{
    match phrase_from_entropy(entropy) {
        Some(phrase) => phrase,
        None => vstd::pervasive::unreached(),
    }
}

/// The secret that `phrase` carries, which is the key of its object, or
/// `InvalidMnemonic` where the phrase is rejected or carries fewer than 32
/// bytes.
pub fn mnemonic_to_key(phrase: &str) -> (secret: Result<[u8; 32], BlobError>)
    ensures
        secret matches Ok(entropy) ==> secret_of(phrase@) == Some(entropy@),
        secret matches Err(e) ==> e == BlobError::InvalidMnemonic && secret_of(phrase@) is None,
{
    match entropy_from_phrase(phrase) {
        Some(entropy) => entropy_to_key(entropy.as_slice()),
        None => Err(BlobError::InvalidMnemonic),
    }
}

} // verus!
