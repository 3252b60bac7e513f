//! Writing a blob: the filename sealed once, then one frame to the chunk.

use crate::big_endian::{lemma_be_bytes_len, lemma_pow256_of_8};
use crate::cipher::{aead_opened, aead_sealed, seal, NONCE_LEN};
use crate::decryption::{
    decode_blob, lemma_decode_blob_append, restored_filename, Decoded, Ending,
};
use crate::error::BlobError;
use crate::frame::{
    encode_frame, frame_bytes, frame_nonce, FRAME_OVERHEAD, LENGTH_LEN,
};
use crate::key_material::{content_address, entropy_to_hash, fresh_nonce, fresh_secret};
use crate::mnemonic::{entropy_to_mnemonic, mnemonic_phrase, secret_of, SECRET_LEN};
use crate::models::{BlobMetadata, BlobMetadataView};
use vstd::prelude::*;
use vstd::utf8::{encode_utf8, encode_utf8_decode_utf8, encode_utf8_valid_utf8};

verus! {

/// What a writer holds until it is finalized.
enum WriterState {
    Active { entropy: [u8; 32], metadata: BlobMetadata },
    Finalized,
}

/// The writer of one blob.
///
/// It is begun with a filename, fed the plaintext chunk by chunk, and
/// finalized once, which hands out the mnemonic and the metadata record and
/// drops the secret. Each chunk comes back as the frame to append to the
/// blob. A finalized writer refuses every further operation.
pub struct Encryptor {
    state: WriterState,
    filename: Ghost<Seq<char>>,
    chunks: Ghost<Seq<Seq<u8>>>,
    emitted: Ghost<Seq<u8>>,
}

/// The metadata record of an object begun under `entropy`, its filename
/// sealed under `nonce`; `None` where the cipher refuses to seal the name.
pub open spec fn sealed_record(entropy: Seq<u8>, nonce: Seq<u8>, filename: Seq<char>) -> Option<
    BlobMetadataView,
> {
    match aead_sealed(entropy, nonce, encode_utf8(filename)) {
        Some(sealed) => Some(
            BlobMetadataView {
                entropy_hash: content_address(entropy),
                filename_cipher: sealed,
                filename_nonce: nonce,
            },
        ),
        None => None,
    }
}

impl Encryptor {
    /// Whether the writer still takes chunks.
    pub closed spec fn is_active(&self) -> bool {
        self.state is Active
    }

    /// The secret of the object, while the writer holds it.
    pub closed spec fn key(&self) -> Seq<u8>
        recommends
            self.is_active(),
    {
        self.state->entropy@
    }

    /// The metadata record, while the writer holds it.
    pub closed spec fn metadata(&self) -> BlobMetadataView
        recommends
            self.is_active(),
    {
        self.state->metadata@
    }

    /// The filename that the writer was begun with.
    pub closed spec fn filename(&self) -> Seq<char> {
        self.filename@
    }

    /// The chunks taken so far, in order.
    pub closed spec fn chunks(&self) -> Seq<Seq<u8>> {
        self.chunks@
    }

    /// The frames handed out so far, back to back: the blob as written.
    pub closed spec fn emitted(&self) -> Seq<u8> {
        self.emitted@
    }

    /// The plaintext taken so far.
    pub open spec fn content(&self) -> Seq<u8> {
        self.chunks().flatten()
    }

    /// What holds of every writer, in every state that the operations reach.
    ///
    /// The blob as written is longer than the plaintext taken by 36 bytes to
    /// the chunk. While the writer is active: the record is filed under its
    /// secret's content address; the sealed filename opens, under the secret
    /// and the record's nonce, to the filename; and the blob as written reads
    /// back, under the secret, as the chunks taken, to the end and without a
    /// failure.
    pub open spec fn wf(&self) -> bool {
        &&& self.emitted().len() == self.content().len() + FRAME_OVERHEAD * self.chunks().len()
        &&& self.is_active() ==> {
            &&& self.key().len() == SECRET_LEN
            &&& self.metadata().filename_nonce.len() == NONCE_LEN
            &&& self.metadata().entropy_hash == content_address(self.key())
            &&& aead_opened(
                self.key(),
                self.metadata().filename_nonce,
                self.metadata().filename_cipher,
            ) == Some(encode_utf8(self.filename()))
            &&& decode_blob(self.key(), self.emitted()) == (Decoded {
                chunks: self.chunks(),
                ending: Ending::Exhausted,
            })
        }
    }

    /// Begins a blob under a fresh secret and a fresh filename nonce.
    ///
    /// Fails with `IoFailure` where the system's random source fails, and
    /// with `SealFailure` where the cipher refuses the filename.
    pub fn new(filename: &str) -> (writer: Result<Encryptor, BlobError>)
        ensures
            writer matches Ok(w) ==> w.wf() && w.is_active() && w.filename() == filename@
                && w.chunks().len() == 0 && w.emitted().len() == 0 && sealed_record(
                w.key(),
                w.metadata().filename_nonce,
                filename@,
            ) == Some(w.metadata()),
            writer matches Err(e) ==> e == BlobError::IoFailure || e == BlobError::SealFailure,
    {
        let entropy = match fresh_secret() {
            Ok(entropy) => entropy,
            Err(e) => {
                return Err(e);
            },
        };
        let nonce = match fresh_nonce() {
            Ok(nonce) => nonce,
            Err(e) => {
                return Err(e);
            },
        };
        Encryptor::with_secret(filename, entropy, nonce)
    }

    /// Begins a blob under the given secret, the filename sealed under the
    /// given nonce. The caller answers for the secret being fresh.
    ///
    /// Fails with `SealFailure` exactly where the cipher refuses the
    /// filename.
    pub fn with_secret(filename: &str, entropy: [u8; 32], nonce: [u8; 12]) -> (writer: Result<
        Encryptor,
        BlobError,
    >)
        ensures
            sealed_record(entropy@, nonce@, filename@) is None ==> (writer matches Err(e) && e
                == BlobError::SealFailure),
            sealed_record(entropy@, nonce@, filename@) matches Some(record) ==> (writer matches Ok(
                w,
            ) && w.wf() && w.is_active() && w.key() == entropy@ && w.metadata() == record
                && w.filename() == filename@ && w.chunks().len() == 0 && w.emitted().len() == 0),
    {
        match seal(&entropy, &nonce, filename.as_bytes()) {
            Some(filename_cipher) => {
                let entropy_hash = entropy_to_hash(&entropy);
                let metadata = BlobMetadata { entropy_hash, filename_cipher, filename_nonce: nonce };
                Ok(
                    Encryptor {
                        state: WriterState::Active { entropy, metadata },
                        filename: Ghost(filename@),
                        chunks: Ghost(Seq::empty()),
                        emitted: Ghost(Seq::empty()),
                    },
                )
            },
            None => Err(BlobError::SealFailure),
        }
    }

    /// Seals one chunk under a fresh nonce and hands back its frame, to be
    /// appended to the blob.
    ///
    /// A finalized writer refuses with `IllegalState`. Else the call fails
    /// with `IoFailure` where the system's random source fails and with
    /// `SealFailure` where the cipher refuses the chunk. A writer that
    /// refuses or fails is left as it was.
    pub fn update(&mut self, chunk: &[u8]) -> (frame: Result<Vec<u8>, BlobError>)
        requires
            old(self).wf(),
        ensures
            final(self).wf(),
            !old(self).is_active() ==> frame == Err::<Vec<u8>, BlobError>(BlobError::IllegalState),
            old(self).is_active() ==> frame != Err::<Vec<u8>, BlobError>(BlobError::IllegalState),
            frame is Err ==> *final(self) == *old(self),
            frame matches Err(e) ==> e == BlobError::IllegalState || e == BlobError::IoFailure || e
                == BlobError::SealFailure,
            frame matches Ok(f) ==> old(self).takes(*final(self), chunk@, frame_nonce(f@), f@),
    {
        if !self.active() {
            return Err(BlobError::IllegalState);
        }
        let nonce = match fresh_nonce() {
            Ok(nonce) => nonce,
            Err(e) => {
                return Err(e);
            },
        };
        let frame = self.update_with_nonce(chunk, nonce);
        proof {
            if let Ok(ref f) = frame {
                let sealed = aead_sealed(old(self).key(), nonce@, chunk@)->0;
                lemma_be_bytes_len(sealed.len(), LENGTH_LEN as nat);
                assert(frame_nonce(f@) == nonce@);
            }
        }
        frame
    }

    /// Seals one chunk under the given nonce and hands back its frame. The
    /// caller answers for the nonce never having been used under this secret.
    ///
    /// A finalized writer refuses with `IllegalState`; an active one fails
    /// with `SealFailure` exactly where the cipher refuses the chunk. A
    /// writer that refuses or fails is left as it was.
    pub fn update_with_nonce(&mut self, chunk: &[u8], nonce: [u8; 12]) -> (frame: Result<
        Vec<u8>,
        BlobError,
    >)
        requires
            old(self).wf(),
        ensures
            final(self).wf(),
            !old(self).is_active() ==> frame == Err::<Vec<u8>, BlobError>(BlobError::IllegalState),
            old(self).is_active() && aead_sealed(old(self).key(), nonce@, chunk@) is None ==> frame
                == Err::<Vec<u8>, BlobError>(BlobError::SealFailure),
            old(self).is_active() && aead_sealed(old(self).key(), nonce@, chunk@) is Some ==> (
            frame matches Ok(f) && old(self).takes(*final(self), chunk@, nonce@, f@)),
            frame is Err ==> *final(self) == *old(self),
    {
        let sealed = match &self.state {
            WriterState::Finalized => {
                return Err(BlobError::IllegalState);
            },
            WriterState::Active { entropy, metadata } => seal(entropy, &nonce, chunk),
        };
        match sealed {
            Some(sealed) => {
                let frame = encode_frame(&nonce, sealed.as_slice());
                proof {
                    lemma_pow256_of_8();
                    assert(sealed@.len() == sealed.len());
                    lemma_decode_blob_append(self.key(), self.emitted(), nonce@, sealed@);
                    self.chunks().lemma_flatten_push(chunk@);
                }
                self.chunks = Ghost(self.chunks@.push(chunk@));
                self.emitted = Ghost(self.emitted@ + frame@);
                Ok(frame)
            },
            None => Err(BlobError::SealFailure),
        }
    }

    /// Ends the writing: hands out the mnemonic of the secret and the
    /// metadata record to persist, and drops the secret.
    ///
    /// The mnemonic carries the secret: read back, it gives the key that the
    /// blob and the filename were sealed under. So whoever holds the mnemonic
    /// opens the record's sealed filename to the filename, and reads the blob
    /// as written back as the plaintext that the writer took. A writer that
    /// was finalized before refuses with `IllegalState`.
    pub fn finalize(&mut self) -> (outcome: Result<(String, BlobMetadata), BlobError>)
        requires
            old(self).wf(),
        ensures
            final(self).wf(),
            !final(self).is_active(),
            final(self).filename() == old(self).filename(),
            final(self).chunks() == old(self).chunks(),
            final(self).emitted() == old(self).emitted(),
            !old(self).is_active() ==> outcome == Err::<(String, BlobMetadata), BlobError>(
                BlobError::IllegalState,
            ),
            old(self).is_active() ==> (outcome matches Ok(pair) && pair.0@ == mnemonic_phrase(
                old(self).key(),
            ) && secret_of(pair.0@) == Some(old(self).key()) && pair.1@ == old(self).metadata()),
            old(self).is_active() ==> (outcome matches Ok(pair) && restored_filename(
                pair.0@,
                pair.1.filename_cipher@,
                pair.1.filename_nonce@,
            ) == Ok::<Seq<char>, BlobError>(old(self).filename()) && decode_blob(
                old(self).key(),
                old(self).emitted(),
            ).outcome() == Ok::<Seq<u8>, BlobError>(old(self).content())),
    {
        proof {
            encode_utf8_valid_utf8(self.filename());
            encode_utf8_decode_utf8(self.filename());
        }
        let mut state = WriterState::Finalized;
        core::mem::swap(&mut self.state, &mut state);
        match state {
            WriterState::Active { entropy, metadata } => {
                let mnemonic = entropy_to_mnemonic(&entropy);
                Ok((mnemonic, metadata))
            },
            WriterState::Finalized => Err(BlobError::IllegalState),
        }
    }

    /// The metadata record, while the writer holds it.
    pub fn record(&self) -> (record: Option<&BlobMetadata>)
        ensures
            record is Some == self.is_active(),
            record matches Some(r) ==> r@ == self.metadata(),
    {
        match &self.state {
            WriterState::Active { entropy, metadata } => Some(metadata),
            WriterState::Finalized => None,
        }
    }

    /// Whether the writer still takes chunks.
    #[verifier::when_used_as_spec(is_active)]
    pub fn active(&self) -> (active: bool)
        ensures
            active == self.is_active(),
    {
        match &self.state {
            WriterState::Active { entropy, metadata } => true,
            WriterState::Finalized => false,
        }
    }

    /// The step of an active writer that takes `chunk` under `nonce`: it
    /// hands out `frame`, the frame of the chunk as the cipher seals it, and
    /// goes to `after`, which has the chunk and the frame behind what it had
    /// and is otherwise as before.
    pub open spec fn takes(
        &self,
        after: Encryptor,
        chunk: Seq<u8>,
        nonce: Seq<u8>,
        frame: Seq<u8>,
    ) -> bool {
        &&& self.is_active()
        &&& aead_sealed(self.key(), nonce, chunk) matches Some(sealed)
        &&& frame == frame_bytes(nonce, sealed)
        &&& frame.len() == FRAME_OVERHEAD + chunk.len()
        &&& after.is_active()
        &&& after.key() == self.key()
        &&& after.metadata() == self.metadata()
        &&& after.filename() == self.filename()
        &&& after.chunks() == self.chunks().push(chunk)
        &&& after.emitted() == self.emitted() + frame
    }
}

} // verus!
