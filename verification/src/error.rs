//! The failures an operation of the store can end in.

use vstd::prelude::*;

verus! {

/// Why an operation failed.
#[derive(Clone, Copy, Debug, PartialEq, Eq, Structural)]
pub enum BlobError {
    /// The phrase has a word outside the word list, a wrong word count or a
    /// checksum that does not match.
    InvalidMnemonic,
    /// A blob is already stored under the content address.
    DuplicateBlob,
    /// No metadata record or no blob is stored under the content address.
    NotFound,
    /// The cipher's tag check failed: wrong secret, or bytes that were altered.
    AuthenticationFailure,
    /// The input ended inside a frame.
    TruncatedFrame,
    /// The opened filename is not valid UTF-8.
    InvalidEncoding,
    /// The storage, the transport or the system's random source failed.
    IoFailure,
    /// A writer was used after it had been finalized, or an operation was
    /// told of an event that it did not wait for.
    IllegalState,
    /// The cipher refused to seal a chunk or a filename.
    SealFailure,
}

/// What the service lets a caller see of a failure.
#[derive(Clone, Copy, Debug, PartialEq, Eq, Structural)]
pub enum ErrorClass {
    /// The request itself is malformed.
    InvalidRequest,
    /// The mnemonic presented opens nothing. Whether no object is filed
    /// under it or an object is and did not authenticate is not told apart:
    /// the difference would say whether an address exists.
    AccessDenied,
    /// The store failed.
    Internal,
}

impl BlobError {
    /// The class that the service answers with: a mnemonic that is no
    /// mnemonic is the caller's mistake; an object that is not found and one
    /// that does not authenticate are one and the same refusal; everything
    /// else is the store's own failure.
    pub fn class(self) -> (class: ErrorClass)
        ensures
            class == ErrorClass::InvalidRequest <==> self == BlobError::InvalidMnemonic,
            class == ErrorClass::AccessDenied <==> self == BlobError::NotFound || self
                == BlobError::AuthenticationFailure,
    {
        match self {
            BlobError::InvalidMnemonic => ErrorClass::InvalidRequest,
            BlobError::NotFound => ErrorClass::AccessDenied,
            BlobError::AuthenticationFailure => ErrorClass::AccessDenied,
            _ => ErrorClass::Internal,
        }
    }
}

} // verus!
