//! The metadata record of a stored blob.

use vstd::prelude::*;

verus! {

/// What is kept of a stored object beside its blob: the content address it
/// is filed under, and its filename, sealed under the object's secret.
#[derive(Debug, PartialEq, Eq)]
pub struct BlobMetadata {
    /// The content address: primary key of the record, name of the blob.
    pub entropy_hash: String,
    /// The filename's ciphertext followed by its 16-byte tag.
    pub filename_cipher: Vec<u8>,
    /// The nonce that the filename was sealed under, used this once.
    pub filename_nonce: [u8; 12],
}

/// A metadata record by the views of its fields.
pub struct BlobMetadataView {
    pub entropy_hash: Seq<char>,
    pub filename_cipher: Seq<u8>,
    pub filename_nonce: Seq<u8>,
}

impl View for BlobMetadata {
    type V = BlobMetadataView;

    open spec fn view(&self) -> BlobMetadataView {
        BlobMetadataView {
            entropy_hash: self.entropy_hash@,
            filename_cipher: self.filename_cipher@,
            filename_nonce: self.filename_nonce@,
        }
    }
}

impl Clone for BlobMetadata {
    fn clone(&self) -> (copy: BlobMetadata)
        ensures
            copy@ == self@,
    {
        BlobMetadata {
            entropy_hash: self.entropy_hash.clone(),
            filename_cipher: self.filename_cipher.clone(),
            filename_nonce: self.filename_nonce,
        }
    }
}

} // verus!
