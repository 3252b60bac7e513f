//! Storing an object: the blob created, filled frame by frame and recorded,
//! or removed again.

use crate::big_endian::lemma_be_bytes_len;
use crate::cipher::{aead_opened, aead_sealed};
use crate::decryption::{decode_blob, Decoded, Ending};
use crate::encryption::Encryptor;
use crate::error::BlobError;
use crate::frame::{frame_bytes, frame_nonce, FRAME_OVERHEAD, LENGTH_LEN};
use crate::key_material::{content_address, fresh_nonce};
use crate::mnemonic::{mnemonic_phrase, secret_of};
use crate::models::{BlobMetadata, BlobMetadataView};
use vstd::prelude::*;
use vstd::utf8::encode_utf8;

verus! {

/// How far a store operation has come.
#[derive(Clone, Copy, Debug, PartialEq, Eq, Structural)]
pub enum StorePhase {
    /// The blob is being created.
    Creating,
    /// The blob exists and every frame so far is in it; the next chunk of
    /// the input is awaited.
    Reading,
    /// A frame is being appended to the blob.
    Appending,
    /// The blob is complete; its metadata record is being inserted.
    Recording,
    /// The operation has failed; the blob is being removed.
    Cleaning,
    /// The operation has answered.
    Finished,
}

/// What the service tells a store operation of the last action, or of the
/// caller's input.
#[derive(Debug, PartialEq, Eq)]
pub enum StoreEvent {
    /// The blob store created the blob, which did not exist.
    BlobCreated,
    /// The blob store holds a blob under the address already.
    BlobExists,
    /// The caller sent this chunk of plaintext.
    Chunk(Vec<u8>),
    /// The caller's input has ended.
    InputEnded,
    /// The caller's input broke off.
    InputFailed,
    /// The blob store appended the frame.
    FrameAppended,
    /// The repository inserted the record.
    RecordInserted,
    /// The repository holds a record under the address already.
    RecordExists,
    /// The blob store has dealt with the removal, whether or not it removed
    /// anything.
    BlobRemoved,
    /// The blob store or the repository failed.
    Fault,
}

/// What a store operation asks of the service next.
#[derive(Debug, PartialEq, Eq)]
pub enum StoreAction {
    /// Create the blob filed under this address, and fail if it exists.
    CreateBlob(String),
    /// Read the next chunk of the caller's input.
    NextChunk,
    /// Append this frame to the blob.
    AppendFrame(Vec<u8>),
    /// Insert this metadata record.
    InsertRecord(BlobMetadata),
    /// Remove the blob filed under this address, as far as that is possible.
    RemoveBlob(String),
    /// Answer with this mnemonic, which is kept nowhere else.
    Respond(String),
    /// Answer with this failure.
    Fail(BlobError),
}

/// One store operation.
pub struct StoreSession {
    writer: Encryptor,
    address: String,
    phase: StorePhase,
    mnemonic: Option<String>,
    failure: BlobError,
    secret: Ghost<Seq<u8>>,
    record: Ghost<BlobMetadataView>,
}

impl StoreSession {
    /// The secret of the object.
    pub closed spec fn secret(&self) -> Seq<u8> {
        self.secret@
    }

    /// The metadata record of the object.
    pub closed spec fn record(&self) -> BlobMetadataView {
        self.record@
    }

    /// The content address that the object is filed under.
    pub closed spec fn address(&self) -> Seq<char> {
        self.address@
    }

    /// The filename that the object is stored with.
    pub closed spec fn filename(&self) -> Seq<char> {
        self.writer.filename()
    }

    /// The chunks taken from the caller so far, in order.
    pub closed spec fn chunks(&self) -> Seq<Seq<u8>> {
        self.writer.chunks()
    }

    /// The frames handed to the blob store so far, back to back.
    pub closed spec fn written(&self) -> Seq<u8> {
        self.writer.emitted()
    }

    /// How far the operation has come.
    pub closed spec fn spec_phase(&self) -> StorePhase {
        self.phase
    }

    /// The mnemonic to answer with, once the blob is complete.
    pub closed spec fn mnemonic(&self) -> Seq<char>
        recommends
            self.spec_phase() == StorePhase::Recording,
    {
        self.mnemonic->0@
    }

    /// The failure to answer with, once the blob is removed.
    pub closed spec fn failure(&self) -> BlobError
        recommends
            self.spec_phase() == StorePhase::Cleaning,
    {
        self.failure
    }

    /// What the session holds in each phase.
    pub closed spec fn holds(&self) -> bool {
        &&& self.writer.wf()
        &&& (self.phase == StorePhase::Creating || self.phase == StorePhase::Reading || self.phase
            == StorePhase::Appending) ==> {
            &&& self.writer.is_active()
            &&& self.writer.key() == self.secret@
            &&& self.writer.metadata() == self.record@
        }
        &&& self.phase == StorePhase::Recording ==> self.mnemonic is Some
    }

    /// What holds of every store operation, in every state that its steps
    /// reach.
    ///
    /// The object is filed under the content address of its secret. Its
    /// sealed filename opens, under the secret, to its filename. What was
    /// handed to the blob store reads back, under the secret, as the chunks
    /// taken from the caller, to the end and without a failure, and is longer
    /// than their plaintext by 36 bytes to the chunk. And the mnemonic, once
    /// there is one, carries the secret.
    pub open spec fn wf(&self) -> bool {
        &&& self.holds()
        &&& self.address() == content_address(self.secret())
        &&& self.record().entropy_hash == self.address()
        &&& aead_opened(self.secret(), self.record().filename_nonce, self.record().filename_cipher)
            == Some(encode_utf8(self.filename()))
        &&& decode_blob(self.secret(), self.written()) == (Decoded {
            chunks: self.chunks(),
            ending: Ending::Exhausted,
        })
        &&& self.written().len() == self.chunks().flatten().len() + FRAME_OVERHEAD
            * self.chunks().len()
        &&& self.spec_phase() == StorePhase::Recording ==> {
            &&& self.mnemonic() == mnemonic_phrase(self.secret())
            &&& secret_of(self.mnemonic()) == Some(self.secret())
        }
    }

    /// The session is as `before` was, but for its phase and the failure it
    /// remembers.
    pub open spec fn keeps(&self, before: StoreSession) -> bool {
        &&& self.secret() == before.secret()
        &&& self.record() == before.record()
        &&& self.address() == before.address()
        &&& self.filename() == before.filename()
        &&& self.chunks() == before.chunks()
        &&& self.written() == before.written()
    }

    /// The step that gives the operation up with `failure`: the blob is to
    /// be removed before anything is answered.
    pub open spec fn gives_up(&self, failure: BlobError, after: StoreSession, action: StoreAction) -> bool {
        &&& after.keeps(*self)
        &&& after.spec_phase() == StorePhase::Cleaning
        &&& after.failure() == failure
        &&& action matches StoreAction::RemoveBlob(a)
        &&& a@ == self.address()
    }

    /// The step that ends the operation with `failure`, nothing being left to
    /// remove.
    pub open spec fn ends_with(&self, failure: BlobError, after: StoreSession, action: StoreAction) -> bool {
        &&& after.keeps(*self)
        &&& after.spec_phase() == StorePhase::Finished
        &&& action == StoreAction::Fail(failure)
    }

    /// One step of the operation: told `event`, the session goes to `after`
    /// and asks for `action`.
    ///
    /// A blob that exists already is never written to: the operation fails
    /// with `DuplicateBlob`. Each chunk becomes one frame, appended before
    /// the next chunk is read, so that the frames lie in the order of the
    /// chunks. The record is inserted only when the input has ended and the
    /// last frame is appended; the mnemonic is answered only when the record
    /// is inserted. From the creation of the blob on, whatever goes wrong has
    /// the blob removed before the failure is answered. An event that the
    /// phase does not wait for counts as going wrong, with `IllegalState`.
    pub open spec fn steps_to(&self, event: StoreEvent, after: StoreSession, action: StoreAction) -> bool {
        match self.spec_phase() {
            StorePhase::Creating => match event {
                StoreEvent::BlobCreated => {
                    &&& after.keeps(*self)
                    &&& after.spec_phase() == StorePhase::Reading
                    &&& action == StoreAction::NextChunk
                },
                StoreEvent::BlobExists => self.ends_with(BlobError::DuplicateBlob, after, action),
                StoreEvent::Fault => self.ends_with(BlobError::IoFailure, after, action),
                _ => self.ends_with(BlobError::IllegalState, after, action),
            },
            StorePhase::Reading => match event {
                StoreEvent::Chunk(chunk) => match action {
                    StoreAction::AppendFrame(frame) => {
                        &&& after.spec_phase() == StorePhase::Appending
                        &&& after.secret() == self.secret()
                        &&& after.record() == self.record()
                        &&& after.address() == self.address()
                        &&& after.filename() == self.filename()
                        &&& after.chunks() == self.chunks().push(chunk@)
                        &&& after.written() == self.written() + frame@
                        &&& aead_sealed(self.secret(), frame_nonce(frame@), chunk@) matches Some(
                            sealed,
                        )
                        &&& frame@ == frame_bytes(frame_nonce(frame@), sealed)
                        &&& frame@.len() == FRAME_OVERHEAD + chunk@.len()
                    },
                    _ => self.gives_up(BlobError::IoFailure, after, action) || self.gives_up(
                        BlobError::SealFailure,
                        after,
                        action,
                    ),
                },
                StoreEvent::InputEnded => {
                    &&& after.keeps(*self)
                    &&& after.spec_phase() == StorePhase::Recording
                    &&& action matches StoreAction::InsertRecord(record)
                    &&& record@ == self.record()
                },
                StoreEvent::InputFailed => self.gives_up(BlobError::IoFailure, after, action),
                StoreEvent::Fault => self.gives_up(BlobError::IoFailure, after, action),
                _ => self.gives_up(BlobError::IllegalState, after, action),
            },
            StorePhase::Appending => match event {
                StoreEvent::FrameAppended => {
                    &&& after.keeps(*self)
                    &&& after.spec_phase() == StorePhase::Reading
                    &&& action == StoreAction::NextChunk
                },
                StoreEvent::Fault => self.gives_up(BlobError::IoFailure, after, action),
                _ => self.gives_up(BlobError::IllegalState, after, action),
            },
            StorePhase::Recording => match event {
                StoreEvent::RecordInserted => {
                    &&& after.keeps(*self)
                    &&& after.spec_phase() == StorePhase::Finished
                    &&& action matches StoreAction::Respond(mnemonic)
                    &&& mnemonic@ == self.mnemonic()
                },
                StoreEvent::RecordExists => self.gives_up(BlobError::DuplicateBlob, after, action),
                StoreEvent::Fault => self.gives_up(BlobError::IoFailure, after, action),
                _ => self.gives_up(BlobError::IllegalState, after, action),
            },
            StorePhase::Cleaning => self.ends_with(self.failure(), after, action),
            StorePhase::Finished => self.ends_with(BlobError::IllegalState, after, action),
        }
    }

    /// Begins a store operation for a file named `filename`, under a fresh
    /// secret, and asks first for the creation of the blob.
    ///
    /// Fails with `IoFailure` where the system's random source fails, and
    /// with `SealFailure` where the cipher refuses the filename.
    pub fn begin(filename: &str) -> (begun: Result<(StoreSession, StoreAction), BlobError>)
        ensures
            begun matches Ok(pair) ==> ({
                &&& pair.0.wf()
                &&& pair.0.spec_phase() == StorePhase::Creating
                &&& pair.0.filename() == filename@
                &&& pair.0.chunks().len() == 0
                &&& pair.0.written().len() == 0
                &&& pair.1 matches StoreAction::CreateBlob(a)
                &&& a@ == pair.0.address()
            }),
            begun matches Err(e) ==> e == BlobError::IoFailure || e == BlobError::SealFailure,
    {
        match Encryptor::new(filename) {
            Ok(writer) => StoreSession::adopt(writer),
            Err(e) => Err(e),
        }
    }

    /// Begins a store operation with a writer begun elsewhere, and asks
    /// first for the creation of the blob. A finalized writer is refused
    /// with `IllegalState`.
    pub fn adopt(writer: Encryptor) -> (begun: Result<(StoreSession, StoreAction), BlobError>)
        requires
            writer.wf(),
        ensures
            !writer.is_active() ==> (begun matches Err(e) && e == BlobError::IllegalState),
            writer.is_active() ==> ({
                &&& begun matches Ok(pair)
                &&& pair.0.wf()
                &&& pair.0.spec_phase() == StorePhase::Creating
                &&& pair.0.secret() == writer.key()
                &&& pair.0.record() == writer.metadata()
                &&& pair.0.filename() == writer.filename()
                &&& pair.0.chunks() == writer.chunks()
                &&& pair.0.written() == writer.emitted()
                &&& pair.1 matches StoreAction::CreateBlob(a)
                &&& a@ == pair.0.address()
            }),
    {
        let address = match writer.record() {
            Some(record) => record.entropy_hash.clone(),
            None => {
                return Err(BlobError::IllegalState);
            },
        };
        let action = StoreAction::CreateBlob(address.clone());
        let ghost secret = writer.key();
        let ghost record = writer.metadata();
        Ok(
            (
                StoreSession {
                    writer,
                    address,
                    phase: StorePhase::Creating,
                    mnemonic: None,
                    failure: BlobError::IllegalState,
                    secret: Ghost(secret),
                    record: Ghost(record),
                },
                action,
            ),
        )
    }

    /// How far the operation has come.
    #[verifier::when_used_as_spec(spec_phase)]
    pub fn phase(&self) -> (phase: StorePhase)
        ensures
            phase == self.spec_phase(),
    {
        self.phase
    }

    /// Gives the operation up: remembers the failure and asks for the blob
    /// to be removed.
    fn give_up(&mut self, failure: BlobError) -> (action: StoreAction)
        requires
            old(self).wf(),
        ensures
            final(self).wf(),
            old(self).gives_up(failure, *final(self), action),
    {
        self.failure = failure;
        self.phase = StorePhase::Cleaning;
        StoreAction::RemoveBlob(self.address.clone())
    }

    /// Ends the operation with a failure.
    fn end_with(&mut self, failure: BlobError) -> (action: StoreAction)
        requires
            old(self).wf(),
        ensures
            final(self).wf(),
            old(self).ends_with(failure, *final(self), action),
    {
        self.phase = StorePhase::Finished;
        StoreAction::Fail(failure)
    }

    /// Takes a chunk of the caller's input as [`StoreSession::step`] does,
    /// but seals it under the given nonce, which the caller answers for
    /// never having used under this secret.
    ///
    /// While the session waits for a chunk, the frame to append is the one
    /// that the cipher seals under that nonce, and the operation is given up
    /// with `SealFailure` exactly where the cipher refuses the chunk.
    pub fn take_chunk(&mut self, chunk: Vec<u8>, nonce: [u8; 12]) -> (action: StoreAction)
        requires
            old(self).wf(),
        ensures
            final(self).wf(),
            old(self).steps_to(StoreEvent::Chunk(chunk), *final(self), action),
            old(self).spec_phase() == StorePhase::Reading && aead_sealed(
                old(self).secret(),
                nonce@,
                chunk@,
            ) is None ==> old(self).gives_up(BlobError::SealFailure, *final(self), action),
            old(self).spec_phase() == StorePhase::Reading ==> (aead_sealed(
                old(self).secret(),
                nonce@,
                chunk@,
            ) matches Some(sealed) ==> (action matches StoreAction::AppendFrame(frame) && frame@
                == frame_bytes(nonce@, sealed))),
    {
        match self.phase {
            StorePhase::Reading => match self.writer.update_with_nonce(chunk.as_slice(), nonce) {
                Ok(frame) => {
                    proof {
                        let sealed = aead_sealed(old(self).secret(), nonce@, chunk@)->0;
                        lemma_be_bytes_len(sealed.len(), LENGTH_LEN as nat);
                        assert(frame_nonce(frame@) == nonce@);
                    }
                    self.phase = StorePhase::Appending;
                    StoreAction::AppendFrame(frame)
                },
                Err(e) => self.give_up(e),
            },
            StorePhase::Creating => self.end_with(BlobError::IllegalState),
            StorePhase::Appending => self.give_up(BlobError::IllegalState),
            StorePhase::Recording => self.give_up(BlobError::IllegalState),
            StorePhase::Cleaning => {
                let failure = self.failure;
                self.end_with(failure)
            },
            StorePhase::Finished => self.end_with(BlobError::IllegalState),
        }
    }

    /// Takes the event that the last action led to and names the next action.
    pub fn step(&mut self, event: StoreEvent) -> (action: StoreAction)
        requires
            old(self).wf(),
        ensures
            final(self).wf(),
            old(self).steps_to(event, *final(self), action),
    {
        match self.phase {
            StorePhase::Creating => match event {
                StoreEvent::BlobCreated => {
                    self.phase = StorePhase::Reading;
                    StoreAction::NextChunk
                },
                StoreEvent::BlobExists => self.end_with(BlobError::DuplicateBlob),
                StoreEvent::Fault => self.end_with(BlobError::IoFailure),
                _ => self.end_with(BlobError::IllegalState),
            },
            StorePhase::Reading => match event {
                StoreEvent::Chunk(chunk) => match fresh_nonce() {
                    Ok(nonce) => self.take_chunk(chunk, nonce),
                    Err(e) => self.give_up(e),
                },
                StoreEvent::InputEnded => match self.writer.finalize() {
                    Ok(pair) => {
                        self.mnemonic = Some(pair.0);
                        self.phase = StorePhase::Recording;
                        StoreAction::InsertRecord(pair.1)
                    },
                    Err(e) => self.give_up(e),
                },
                StoreEvent::InputFailed => self.give_up(BlobError::IoFailure),
                StoreEvent::Fault => self.give_up(BlobError::IoFailure),
                _ => self.give_up(BlobError::IllegalState),
            },
            StorePhase::Appending => match event {
                StoreEvent::FrameAppended => {
                    self.phase = StorePhase::Reading;
                    StoreAction::NextChunk
                },
                StoreEvent::Fault => self.give_up(BlobError::IoFailure),
                _ => self.give_up(BlobError::IllegalState),
            },
            StorePhase::Recording => match event {
                StoreEvent::RecordInserted => {
                    self.phase = StorePhase::Finished;
                    match self.mnemonic.take() {
                        Some(mnemonic) => StoreAction::Respond(mnemonic),
                        None => StoreAction::Fail(BlobError::IllegalState),
                    }
                },
                StoreEvent::RecordExists => self.give_up(BlobError::DuplicateBlob),
                StoreEvent::Fault => self.give_up(BlobError::IoFailure),
                _ => self.give_up(BlobError::IllegalState),
            },
            StorePhase::Cleaning => {
                let failure = self.failure;
                self.end_with(failure)
            },
            StorePhase::Finished => self.end_with(BlobError::IllegalState),
        }
    }
}

} // verus!
