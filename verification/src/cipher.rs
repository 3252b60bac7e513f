//! AES-256-GCM as `ring` computes it, behind two calls from bytes to bytes.
//!
//! Nothing in this module is proved: the two functions below are the
//! library's statement of what the cipher does. Associated data is always
//! empty.

use ring::aead::{Aad, LessSafeKey, Nonce, UnboundKey, AES_256_GCM};
use vstd::prelude::*;

verus! {

/// Bytes in a key.
pub const KEY_LEN: usize = 32;

/// Bytes in a nonce.
pub const NONCE_LEN: usize = 12;

/// Bytes in the authentication tag that sealing appends.
pub const TAG_LEN: usize = 16;

/// Ciphertext followed by tag, as `ring` seals `plain` under `key` and `nonce`
/// with AES-256-GCM and empty associated data; `None` where it refuses.
pub uninterp spec fn aead_sealed(key: Seq<u8>, nonce: Seq<u8>, plain: Seq<u8>) -> Option<Seq<u8>>;

/// The plaintext that `ring` recovers from `sealed` (ciphertext followed by
/// tag) under `key` and `nonce` with AES-256-GCM and empty associated data;
/// `None` where the tag does not match or it refuses for another reason.
pub uninterp spec fn aead_opened(key: Seq<u8>, nonce: Seq<u8>, sealed: Seq<u8>) -> Option<Seq<u8>>;

/// Seals `plain` with `ring::aead::LessSafeKey::seal_in_place_append_tag`,
/// the key made by `UnboundKey::new` for `AES_256_GCM`.
///
/// Trusted: the result is the one named [`aead_sealed`]; what comes back is
/// 16 bytes longer than the plaintext, and opening it under the same key and
/// nonce gives the plaintext back.
#[verifier::external_body]
pub(crate) fn seal(key: &[u8; 32], nonce: &[u8; 12], plain: &[u8]) -> (sealed: Option<Vec<u8>>)
    ensures
        sealed matches Some(s) ==> aead_sealed(key@, nonce@, plain@) == Some(s@),
        sealed is None ==> aead_sealed(key@, nonce@, plain@) is None,
        sealed matches Some(s) ==> s@.len() == plain@.len() + TAG_LEN,
        sealed matches Some(s) ==> aead_opened(key@, nonce@, s@) == Some(plain@),
{
    let key = LessSafeKey::new(UnboundKey::new(&AES_256_GCM, key).ok()?);
    let mut in_out = plain.to_vec();
    key.seal_in_place_append_tag(Nonce::assume_unique_for_key(*nonce), Aad::empty(), &mut in_out)
        .ok()?;
    Some(in_out)
}

/// Opens `sealed` with `ring::aead::LessSafeKey::open_in_place`, the key made
/// by `UnboundKey::new` for `AES_256_GCM`.
///
/// Trusted: the result is the one named [`aead_opened`]; a plaintext that
/// comes back is 16 bytes shorter than what was opened.
#[verifier::external_body]
pub(crate) fn open(key: &[u8; 32], nonce: &[u8; 12], sealed: &[u8]) -> (plain: Option<Vec<u8>>)
    ensures
        plain matches Some(p) ==> aead_opened(key@, nonce@, sealed@) == Some(p@),
        plain is None ==> aead_opened(key@, nonce@, sealed@) is None,
        plain matches Some(p) ==> p@.len() + TAG_LEN == sealed@.len(),
{
    let key = LessSafeKey::new(UnboundKey::new(&AES_256_GCM, key).ok()?);
    let mut in_out = sealed.to_vec();
    let plain = key
        .open_in_place(Nonce::assume_unique_for_key(*nonce), Aad::empty(), &mut in_out)
        .ok()?;
    Some(plain.to_vec())
}

} // verus!
