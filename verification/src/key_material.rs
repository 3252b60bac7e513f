//! Key material: fresh secrets and nonces, and the content address of a
//! secret.
//!
//! A secret's 32 bytes are used directly as the AES-256-GCM key. Its content
//! address, the lowercase hexadecimal SHA-256 digest of those bytes, names
//! both the metadata record and the blob.

use crate::cipher::KEY_LEN;
use crate::error::BlobError;
use crate::mnemonic::{mnemonic_to_key, secret_of};
use rand::Rng;
use rand::rngs::OsRng;
use ring::digest::{digest, SHA256};
use vstd::prelude::*;

verus! {

/// Bytes in a SHA-256 digest.
pub const DIGEST_LEN: usize = 32;

/// Characters in a content address.
pub const ADDRESS_LEN: usize = 64;

/// The SHA-256 digest of `data`, as `ring` computes it.
pub uninterp spec fn sha256(data: Seq<u8>) -> Seq<u8>;

/// The sixteen lowercase hexadecimal digits, in order of value.
pub open spec fn hex_digits() -> Seq<char> {
    seq!['0', '1', '2', '3', '4', '5', '6', '7', '8', '9', 'a', 'b', 'c', 'd', 'e', 'f']
}

/// `bytes` in lowercase hexadecimal, two digits to the byte, high digit first.
pub open spec fn hex_string(bytes: Seq<u8>) -> Seq<char> {
    Seq::new(
        2 * bytes.len(),
        |i: int|
            if i % 2 == 0 {
                hex_digits()[bytes[i / 2] as int / 16]
            } else {
                hex_digits()[bytes[i / 2] as int % 16]
            },
    )
}

/// The content address of a secret: its SHA-256 digest in lowercase
/// hexadecimal.
pub open spec fn content_address(entropy: Seq<u8>) -> Seq<char> {
    hex_string(sha256(entropy))
}

/// Computes the digest with `ring::digest::digest` for `SHA256`.
///
/// Trusted: the result is the one named [`sha256`], and is 32 bytes long.
#[verifier::external_body]
fn sha256_digest(data: &[u8; 32]) -> (out: Vec<u8>)
    ensures
        out@ == sha256(data@),
        out@.len() == DIGEST_LEN,
{
    digest(&SHA256, data).as_ref().to_vec()
}

/// Writes `bytes` with `hex::encode`.
///
/// Trusted: each byte becomes two lowercase hexadecimal digits, the high one
/// first.
#[verifier::external_body]
fn hex_encode(bytes: &[u8]) -> (text: String)
    ensures
        text@ == hex_string(bytes@),
{
    hex::encode(bytes)
}

/// Fills `N` bytes from the operating system's random source with
/// `rand::Rng::try_fill` on `rand::rngs::OsRng`; `None` where the source
/// fails.
///
/// Trusted, and nothing is claimed of the bytes.
#[verifier::external_body]
fn random_bytes<const N: usize>() -> (bytes: Option<[u8; N]>) {
    let mut bytes = [0u8; N];
    OsRng.try_fill(&mut bytes[..]).ok()?;
    Some(bytes)
}

/// The key that `entropy` is: its 32 bytes as they stand, for AES-256-GCM.
/// Entropy of any other length is no secret of this store and is refused
/// with `InvalidMnemonic`, since only a phrase of another word count yields
/// it.
pub fn entropy_to_key(entropy: &[u8]) -> (key: Result<[u8; 32], BlobError>)
    ensures
        entropy@.len() == KEY_LEN ==> (key matches Ok(k) && k@ == entropy@),
        entropy@.len() != KEY_LEN ==> key == Err::<[u8; 32], BlobError>(BlobError::InvalidMnemonic),
{
    if entropy.len() != KEY_LEN {
        return Err(BlobError::InvalidMnemonic);
    }
    let mut key = [0u8; 32];
    let mut i: usize = 0;
    while i < KEY_LEN
        invariant
            i <= KEY_LEN,
            entropy@.len() == KEY_LEN,
            forall|j: int| 0 <= j < i ==> key@[j] == entropy@[j],
        decreases KEY_LEN - i,
    {
        key[i] = entropy[i];
        i = i + 1;
    }
    Ok(key)
}

/// A fresh secret from the system's random source, or `IoFailure` where the
/// source fails.
pub fn fresh_secret() -> (secret: Result<[u8; 32], BlobError>)
    ensures
        secret matches Err(e) ==> e == BlobError::IoFailure,
{
    match random_bytes::<32>() {
        Some(bytes) => Ok(bytes),
        None => Err(BlobError::IoFailure),
    }
}

/// A fresh nonce from the system's random source, or `IoFailure` where the
/// source fails.
pub fn fresh_nonce() -> (nonce: Result<[u8; 12], BlobError>)
    ensures
        nonce matches Err(e) ==> e == BlobError::IoFailure,
{
    match random_bytes::<12>() {
        Some(bytes) => Ok(bytes),
        None => Err(BlobError::IoFailure),
    }
}

/// The content address of a secret.
pub fn entropy_to_hash(entropy: &[u8; 32]) -> (address: String)
    ensures
        address@ == content_address(entropy@),
        address@.len() == ADDRESS_LEN,
{
    let digest = sha256_digest(entropy);
    hex_encode(digest.as_slice())
}

/// The content address of the secret that `mnemonic` carries, or
/// `InvalidMnemonic` where it carries none.
pub fn mnemonic_to_hash(mnemonic: &str) -> (address: Result<String, BlobError>)
    ensures
        secret_of(mnemonic@) matches Some(entropy) ==> (address matches Ok(a) && a@
            == content_address(entropy)),
        secret_of(mnemonic@) is None ==> address == Err::<String, BlobError>(
            BlobError::InvalidMnemonic,
        ),
{
    match mnemonic_to_key(mnemonic) {
        Ok(entropy) => Ok(entropy_to_hash(&entropy)),
        Err(e) => Err(e),
    }
}

} // verus!
