//! Deleting an object: its record first, then its blob.

use crate::error::BlobError;
use crate::handlers::AccessInfo;
use crate::key_material::{content_address, mnemonic_to_hash};
use crate::mnemonic::secret_of;
use vstd::prelude::*;

verus! {

/// How far a deletion has come.
#[derive(Clone, Copy, Debug, PartialEq, Eq, Structural)]
pub enum DeletePhase {
    /// The metadata record is being deleted.
    Record,
    /// The record is gone; the blob is being removed.
    Blob,
    /// The deletion has succeeded or failed.
    Finished,
}

/// What the service tells a deletion of the last action.
#[derive(Clone, Copy, Debug, PartialEq, Eq, Structural)]
pub enum DeleteEvent {
    /// The repository deleted the record.
    RecordDeleted,
    /// The repository holds no record under the address.
    RecordMissing,
    /// The blob store removed the blob.
    BlobRemoved,
    /// The blob store holds no blob under the address.
    BlobMissing,
    /// The repository or the blob store failed.
    Fault,
}

/// What a deletion asks of the service next.
#[derive(Debug, PartialEq, Eq)]
pub enum DeleteAction {
    /// Delete the metadata record filed under this address.
    DeleteRecord(String),
    /// Remove the blob filed under this address.
    RemoveBlob(String),
    /// Answer that the object is deleted.
    Succeed,
    /// Answer with this failure.
    Fail(BlobError),
}

/// One step of a deletion of the object at `address`: in phase `before`, told
/// `event`, it goes to `after` and asks for `action`.
///
/// The record goes first, so that the object is gone for every reader even
/// where the removal of the blob fails afterwards. Without a record there is
/// no object, and the deletion fails with `NotFound`. A blob that is already
/// gone when its turn comes counts as removed. An event that the phase does
/// not wait for ends the deletion with `IllegalState`.
pub open spec fn delete_step(
    address: Seq<char>,
    before: DeletePhase,
    event: DeleteEvent,
    after: DeletePhase,
    action: DeleteAction,
) -> bool {
    match (before, event) {
        (DeletePhase::Record, DeleteEvent::RecordDeleted) => {
            &&& after == DeletePhase::Blob
            &&& action matches DeleteAction::RemoveBlob(a)
            &&& a@ == address
        },
        (DeletePhase::Record, DeleteEvent::RecordMissing) => {
            after == DeletePhase::Finished && action == DeleteAction::Fail(BlobError::NotFound)
        },
        (DeletePhase::Blob, DeleteEvent::BlobRemoved) => {
            after == DeletePhase::Finished && action == DeleteAction::Succeed
        },
        (DeletePhase::Blob, DeleteEvent::BlobMissing) => {
            after == DeletePhase::Finished && action == DeleteAction::Succeed
        },
        (DeletePhase::Record, DeleteEvent::Fault) => {
            after == DeletePhase::Finished && action == DeleteAction::Fail(BlobError::IoFailure)
        },
        (DeletePhase::Blob, DeleteEvent::Fault) => {
            after == DeletePhase::Finished && action == DeleteAction::Fail(BlobError::IoFailure)
        },
        _ => after == DeletePhase::Finished && action == DeleteAction::Fail(
            BlobError::IllegalState,
        ),
    }
}

/// The deletion of one object.
pub struct DeleteSession {
    address: String,
    phase: DeletePhase,
}

impl DeleteSession {
    /// The content address of the object to delete.
    pub closed spec fn address(&self) -> Seq<char> {
        self.address@
    }

    /// How far the deletion has come.
    pub closed spec fn spec_phase(&self) -> DeletePhase {
        self.phase
    }

    /// Begins the deletion of the object whose secret `access` carries, and
    /// asks first for the deletion of its record; `InvalidMnemonic` where the
    /// mnemonic carries no secret.
    pub fn begin(access: &AccessInfo) -> (begun: Result<(DeleteSession, DeleteAction), BlobError>)
        ensures
            secret_of(access.mnemonic@) is None ==> (begun matches Err(e) && e
                == BlobError::InvalidMnemonic),
            secret_of(access.mnemonic@) matches Some(entropy) ==> ({
                &&& begun matches Ok(pair)
                &&& pair.0.address() == content_address(entropy)
                &&& pair.0.spec_phase() == DeletePhase::Record
                &&& pair.1 matches DeleteAction::DeleteRecord(a)
                &&& a@ == content_address(entropy)
            }),
    {
        match mnemonic_to_hash(access.mnemonic.as_str()) {
            Ok(address) => {
                let action = DeleteAction::DeleteRecord(address.clone());
                Ok((DeleteSession { address, phase: DeletePhase::Record }, action))
            },
            Err(e) => Err(e),
        }
    }

    /// How far the deletion has come.
    #[verifier::when_used_as_spec(spec_phase)]
    pub fn phase(&self) -> (phase: DeletePhase)
        ensures
            phase == self.spec_phase(),
    {
        self.phase
    }

    /// Takes the event that the last action led to and names the next action.
    pub fn step(&mut self, event: DeleteEvent) -> (action: DeleteAction)
        ensures
            final(self).address() == old(self).address(),
            delete_step(
                old(self).address(),
                old(self).spec_phase(),
                event,
                final(self).spec_phase(),
                action,
            ),
    {
        let (phase, action) = match (self.phase, event) {
            (DeletePhase::Record, DeleteEvent::RecordDeleted) => (
                DeletePhase::Blob,
                DeleteAction::RemoveBlob(self.address.clone()),
            ),
            (DeletePhase::Record, DeleteEvent::RecordMissing) => (
                DeletePhase::Finished,
                DeleteAction::Fail(BlobError::NotFound),
            ),
            (DeletePhase::Blob, DeleteEvent::BlobRemoved) => (
                DeletePhase::Finished,
                DeleteAction::Succeed,
            ),
            (DeletePhase::Blob, DeleteEvent::BlobMissing) => (
                DeletePhase::Finished,
                DeleteAction::Succeed,
            ),
            (DeletePhase::Record, DeleteEvent::Fault) => (
                DeletePhase::Finished,
                DeleteAction::Fail(BlobError::IoFailure),
            ),
            (DeletePhase::Blob, DeleteEvent::Fault) => (
                DeletePhase::Finished,
                DeleteAction::Fail(BlobError::IoFailure),
            ),
            _ => (DeletePhase::Finished, DeleteAction::Fail(BlobError::IllegalState)),
        };
        self.phase = phase;
        action
    }
}

} // verus!
