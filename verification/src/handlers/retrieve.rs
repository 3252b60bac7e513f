//! Retrieving an object: its record, its filename, then its blob.

use crate::decoder::FrameDecoder;
use crate::decryption::{unseal_filename, unsealed_filename};
use crate::error::BlobError;
use crate::handlers::AccessInfo;
use crate::key_material::{content_address, entropy_to_hash};
use crate::mnemonic::{mnemonic_to_key, secret_of};
use crate::models::BlobMetadata;
use vstd::prelude::*;

verus! {

/// How far a retrieval has come.
#[derive(Clone, Copy, Debug, PartialEq, Eq, Structural)]
pub enum RetrievePhase {
    /// The metadata record is being looked up.
    Record,
    /// The filename is restored; the blob is being opened.
    Blob,
    /// The retrieval has handed out its stream or has failed.
    Finished,
}

/// What the service tells a retrieval of the last action.
#[derive(Debug, PartialEq, Eq)]
pub enum RetrieveEvent {
    /// The repository holds this record under the address.
    RecordFound(BlobMetadata),
    /// The repository holds no record under the address.
    RecordMissing,
    /// The blob store opened the blob for reading.
    BlobOpened,
    /// The blob store holds no blob under the address.
    BlobMissing,
    /// The repository or the blob store failed.
    Fault,
}

/// What a retrieval asks of the service next.
pub enum RetrieveAction {
    /// Look up the metadata record filed under this address.
    FindRecord(String),
    /// Open the blob filed under this address for reading.
    OpenBlob(String),
    /// Answer with this filename, and with the chunks that this decoder
    /// yields when it is fed the blob.
    Stream { filename: String, decoder: FrameDecoder },
    /// Answer with this failure.
    Fail(BlobError),
}

/// The retrieval of one object.
pub struct RetrieveSession {
    entropy: [u8; 32],
    address: String,
    phase: RetrievePhase,
    filename: Option<String>,
}

impl RetrieveSession {
    /// The secret that the caller presented.
    pub closed spec fn key(&self) -> Seq<u8> {
        self.entropy@
    }

    /// The content address of the object to retrieve.
    pub closed spec fn address(&self) -> Seq<char> {
        self.address@
    }

    /// How far the retrieval has come.
    pub closed spec fn spec_phase(&self) -> RetrievePhase {
        self.phase
    }

    /// The restored filename, while the blob is being opened.
    pub closed spec fn filename(&self) -> Seq<char>
        recommends
            self.spec_phase() == RetrievePhase::Blob,
    {
        self.filename->0@
    }

    /// While the blob is being opened, the session holds the filename.
    pub closed spec fn wf(&self) -> bool {
        self.phase == RetrievePhase::Blob ==> self.filename is Some
    }

    /// One step of the retrieval: told `event`, the session goes to `after`
    /// and asks for `action`.
    ///
    /// A record that is found has its filename opened under the caller's
    /// secret before the blob is touched: a wrong secret or an altered record
    /// ends the retrieval there. Without a record, or without a blob, there
    /// is no object, and the retrieval fails with `NotFound`. Once the blob
    /// is open the session hands out the filename and a decoder at the start
    /// of the blob, for the caller's secret. An event that the phase does not
    /// wait for ends the retrieval with `IllegalState`.
    pub open spec fn steps_to(
        &self,
        event: RetrieveEvent,
        after: RetrieveSession,
        action: RetrieveAction,
    ) -> bool {
        &&& after.key() == self.key()
        &&& after.address() == self.address()
        &&& match (self.spec_phase(), event) {
            (RetrievePhase::Record, RetrieveEvent::RecordFound(record)) => match unsealed_filename(
                self.key(),
                record.filename_cipher@,
                record.filename_nonce@,
            ) {
                Ok(name) => {
                    &&& after.spec_phase() == RetrievePhase::Blob
                    &&& after.filename() == name
                    &&& action matches RetrieveAction::OpenBlob(a)
                    &&& a@ == self.address()
                },
                Err(e) => after.spec_phase() == RetrievePhase::Finished && action
                    == RetrieveAction::Fail(e),
            },
            (RetrievePhase::Record, RetrieveEvent::RecordMissing) => after.spec_phase()
                == RetrievePhase::Finished && action == RetrieveAction::Fail(BlobError::NotFound),
            (RetrievePhase::Blob, RetrieveEvent::BlobOpened) => {
                &&& after.spec_phase() == RetrievePhase::Finished
                &&& action matches RetrieveAction::Stream { filename, decoder }
                &&& filename@ == self.filename()
                &&& decoder.key() == self.key()
                &&& decoder.spec_state() is Header
            },
            (RetrievePhase::Blob, RetrieveEvent::BlobMissing) => after.spec_phase()
                == RetrievePhase::Finished && action == RetrieveAction::Fail(BlobError::NotFound),
            (RetrievePhase::Record, RetrieveEvent::Fault) => after.spec_phase()
                == RetrievePhase::Finished && action == RetrieveAction::Fail(BlobError::IoFailure),
            (RetrievePhase::Blob, RetrieveEvent::Fault) => after.spec_phase()
                == RetrievePhase::Finished && action == RetrieveAction::Fail(BlobError::IoFailure),
            _ => after.spec_phase() == RetrievePhase::Finished && action == RetrieveAction::Fail(
                BlobError::IllegalState,
            ),
        }
    }

    /// Begins the retrieval of the object whose secret `access` carries, and
    /// asks first for its record; `InvalidMnemonic` where the mnemonic
    /// carries no secret.
    pub fn begin(access: &AccessInfo) -> (begun: Result<
        (RetrieveSession, RetrieveAction),
        BlobError,
    >)
        ensures
            secret_of(access.mnemonic@) is None ==> (begun matches Err(e) && e
                == BlobError::InvalidMnemonic),
            secret_of(access.mnemonic@) matches Some(entropy) ==> ({
                &&& begun matches Ok(pair)
                &&& pair.0.wf()
                &&& pair.0.key() == entropy
                &&& pair.0.address() == content_address(entropy)
                &&& pair.0.spec_phase() == RetrievePhase::Record
                &&& pair.1 matches RetrieveAction::FindRecord(a)
                &&& a@ == content_address(entropy)
            }),
    {
        match mnemonic_to_key(access.mnemonic.as_str()) {
            Ok(entropy) => {
                let address = entropy_to_hash(&entropy);
                let action = RetrieveAction::FindRecord(address.clone());
                Ok(
                    (
                        RetrieveSession {
                            entropy,
                            address,
                            phase: RetrievePhase::Record,
                            filename: None,
                        },
                        action,
                    ),
                )
            },
            Err(e) => Err(e),
        }
    }

    /// How far the retrieval has come.
    #[verifier::when_used_as_spec(spec_phase)]
    pub fn phase(&self) -> (phase: RetrievePhase)
        ensures
            phase == self.spec_phase(),
    {
        self.phase
    }

    /// Takes the event that the last action led to and names the next action.
    pub fn step(&mut self, event: RetrieveEvent) -> (action: RetrieveAction)
        requires
            old(self).wf(),
        ensures
            final(self).wf(),
            old(self).steps_to(event, *final(self), action),
    {
        let phase = self.phase;
        self.phase = RetrievePhase::Finished;
        match (phase, event) {
            (RetrievePhase::Record, RetrieveEvent::RecordFound(record)) => {
                match unseal_filename(&self.entropy, record.filename_cipher, record.filename_nonce) {
                    Ok(name) => {
                        self.filename = Some(name);
                        self.phase = RetrievePhase::Blob;
                        RetrieveAction::OpenBlob(self.address.clone())
                    },
                    Err(e) => RetrieveAction::Fail(e),
                }
            },
            (RetrievePhase::Record, RetrieveEvent::RecordMissing) => RetrieveAction::Fail(
                BlobError::NotFound,
            ),
            (RetrievePhase::Blob, RetrieveEvent::BlobOpened) => match self.filename.take() {
                Some(filename) => RetrieveAction::Stream {
                    filename,
                    decoder: FrameDecoder::with_entropy(self.entropy),
                },
                None => RetrieveAction::Fail(BlobError::IllegalState),
            },
            (RetrievePhase::Blob, RetrieveEvent::BlobMissing) => RetrieveAction::Fail(
                BlobError::NotFound,
            ),
            (RetrievePhase::Record, RetrieveEvent::Fault) => RetrieveAction::Fail(
                BlobError::IoFailure,
            ),
            (RetrievePhase::Blob, RetrieveEvent::Fault) => RetrieveAction::Fail(
                BlobError::IoFailure,
            ),
            _ => RetrieveAction::Fail(BlobError::IllegalState),
        }
    }
}

} // verus!
