//! What holds across writing and reading.
//!
//! The cipher enters these statements only through what the library trusts
//! of it: that opening what was sealed, under the same key and nonce, gives
//! the plaintext back. Whether the cipher rejects a frame that was altered,
//! or one sealed under another key, is not in reach of a proof here; where a
//! statement depends on it, it says so as a hypothesis.

use crate::big_endian::{lemma_be_bytes_len, pow256};
use crate::cipher::{aead_opened, NONCE_LEN};
use crate::decryption::{decode_blob, lemma_decode_blob_concat, restored_filename, Decoded, Ending};
use crate::encryption::Encryptor;
use crate::error::BlobError;
use crate::frame::{frame_bytes, lemma_first_frame_of_frame, HEADER_LEN, LENGTH_LEN};
use crate::handlers::delete::{delete_step, DeleteAction, DeleteEvent, DeletePhase};
use crate::handlers::retrieve::{RetrieveAction, RetrieveEvent, RetrievePhase, RetrieveSession};
use crate::handlers::store::{StoreAction, StoreEvent, StorePhase, StoreSession};
use crate::mnemonic::secret_of;
use crate::models::BlobMetadata;
use vstd::prelude::*;
use vstd::utf8::{encode_utf8_decode_utf8, encode_utf8_valid_utf8};

verus! {

/// Round trip. In every state of an active writer, whoever holds a mnemonic
/// that carries the writer's secret reads back what was written: the sealed
/// filename opens to the filename, and the blob reads, to its end and
/// without a failure, as the chunks that the writer took, so that its
/// content is the plaintext as it was fed.
pub proof fn lemma_round_trip(writer: Encryptor, mnemonic: Seq<char>)
    requires
        writer.wf(),
        writer.is_active(),
        secret_of(mnemonic) == Some(writer.key()),
    ensures
        restored_filename(
            mnemonic,
            writer.metadata().filename_cipher,
            writer.metadata().filename_nonce,
        ) == Ok::<Seq<char>, BlobError>(writer.filename()),
        decode_blob(writer.key(), writer.emitted()).chunks == writer.chunks(),
        decode_blob(writer.key(), writer.emitted()).ending == Ending::Exhausted,
        decode_blob(writer.key(), writer.emitted()).outcome() == Ok::<Seq<u8>, BlobError>(
            writer.content(),
        ),
{
    encode_utf8_valid_utf8(writer.filename());
    encode_utf8_decode_utf8(writer.filename());
}

/// Re-chunking invariance. Two writers that were fed the same plaintext, cut
/// into chunks in whatever way, have written blobs that read back as the same
/// content, each under its own secret. The frames differ, the content does
/// not.
pub proof fn lemma_rechunking_invariance(first: Encryptor, second: Encryptor)
    requires
        first.wf(),
        first.is_active(),
        second.wf(),
        second.is_active(),
        first.content() == second.content(),
    ensures
        decode_blob(first.key(), first.emitted()).outcome() == decode_blob(
            second.key(),
            second.emitted(),
        ).outcome(),
        decode_blob(first.key(), first.emitted()).outcome() == Ok::<Seq<u8>, BlobError>(
            first.content(),
        ),
{
}

/// A rejected frame ends the reading, and nothing of it or behind it is
/// handed out. Where `before` reads to its end without a failure and the
/// cipher rejects the frame that follows, reading gives the chunks of
/// `before` and then an authentication failure, whatever stands in `after`.
///
/// This is tamper detection, and isolation from a wrong secret, as far as
/// the framing bears them: that the cipher does reject a frame whose nonce,
/// ciphertext or tag was altered, or that is opened under another key, is
/// the hypothesis.
pub proof fn lemma_rejected_frame_ends_reading(
    key: Seq<u8>,
    before: Seq<u8>,
    nonce: Seq<u8>,
    sealed: Seq<u8>,
    after: Seq<u8>,
)
    requires
        decode_blob(key, before).ending == Ending::Exhausted,
        nonce.len() == NONCE_LEN,
        sealed.len() < pow256(LENGTH_LEN as nat),
        aead_opened(key, nonce, sealed) is None,
    ensures
        decode_blob(key, before + frame_bytes(nonce, sealed) + after) == (Decoded {
            chunks: decode_blob(key, before).chunks,
            ending: Ending::Failed(BlobError::AuthenticationFailure),
        }),
{
    let tail = frame_bytes(nonce, sealed) + after;
    lemma_first_frame_of_frame(nonce, sealed, after);
    lemma_decode_blob_concat(key, before, tail);
    assert(before + frame_bytes(nonce, sealed) + after == before + tail);
}

/// The nonce of a frame once the byte at `position` of the frame is
/// overwritten with `byte`.
pub open spec fn altered_nonce(nonce: Seq<u8>, position: int, byte: u8) -> Seq<u8> {
    if LENGTH_LEN <= position < HEADER_LEN {
        nonce.update(position - LENGTH_LEN, byte)
    } else {
        nonce
    }
}

/// The sealed part of a frame, ciphertext and tag, once the byte at
/// `position` of the frame is overwritten with `byte`.
pub open spec fn altered_sealed(sealed: Seq<u8>, position: int, byte: u8) -> Seq<u8> {
    if HEADER_LEN <= position < HEADER_LEN + sealed.len() {
        sealed.update(position - HEADER_LEN, byte)
    } else {
        sealed
    }
}

/// Tamper detection, as far as the framing bears it. Take a blob in which a
/// frame stands behind frames that all open, and overwrite one byte of that
/// frame's nonce, ciphertext or tag, which covers the flip of any single bit
/// there. The frame boundaries stay where they were, so the altered frame is
/// handed to the cipher whole; and where the cipher rejects it, reading gives
/// the chunks before it and then an authentication failure: no byte of the
/// altered frame, and nothing behind it.
///
/// That the cipher does reject the altered frame is the hypothesis: it is a
/// property of AES-GCM that holds but for a negligible chance, and is none
/// that the library can prove.
pub proof fn lemma_tampering_is_detected(
    key: Seq<u8>,
    before: Seq<u8>,
    nonce: Seq<u8>,
    sealed: Seq<u8>,
    after: Seq<u8>,
    position: int,
    byte: u8,
)
    requires
        decode_blob(key, before).ending == Ending::Exhausted,
        nonce.len() == NONCE_LEN,
        sealed.len() < pow256(LENGTH_LEN as nat),
        LENGTH_LEN <= position < HEADER_LEN + sealed.len(),
        aead_opened(
            key,
            altered_nonce(nonce, position, byte),
            altered_sealed(sealed, position, byte),
        ) is None,
    ensures
        decode_blob(
            key,
            (before + frame_bytes(nonce, sealed) + after).update(before.len() + position, byte),
        ) == (Decoded {
            chunks: decode_blob(key, before).chunks,
            ending: Ending::Failed(BlobError::AuthenticationFailure),
        }),
{
    let nonce2 = altered_nonce(nonce, position, byte);
    let sealed2 = altered_sealed(sealed, position, byte);
    lemma_be_bytes_len(sealed.len(), LENGTH_LEN as nat);
    assert((before + frame_bytes(nonce, sealed) + after).update(before.len() + position, byte)
        == before + frame_bytes(nonce2, sealed2) + after);
    lemma_rejected_frame_ends_reading(key, before, nonce2, sealed2, after);
}

/// Isolation from a wrong secret, as far as the cipher bears it. A retrieval
/// that is shown a record whose sealed filename the cipher rejects under the
/// secret presented ends there with an authentication failure: it asks for
/// no blob and hands out no filename and no decoder.
///
/// That the cipher does reject, under one secret, what was sealed under
/// another is the hypothesis. Without a record under the content address of
/// the secret presented, the retrieval does not come this far: it ends with
/// `NotFound`.
pub proof fn lemma_wrong_secret_is_turned_away(
    session: RetrieveSession,
    record: BlobMetadata,
    after: RetrieveSession,
    action: RetrieveAction,
)
    requires
        session.spec_phase() == RetrievePhase::Record,
        session.steps_to(RetrieveEvent::RecordFound(record), after, action),
        aead_opened(session.key(), record.filename_nonce@, record.filename_cipher@) is None,
    ensures
        action == RetrieveAction::Fail(BlobError::AuthenticationFailure),
        after.spec_phase() == RetrievePhase::Finished,
{
}

/// A retrieval hands out a stream only for an object whose record was found
/// and whose filename opened under the secret presented, and only once the
/// blob is open; the decoder is then one for that secret, at the start of the
/// blob.
pub proof fn lemma_stream_only_after_the_filename(
    before: RetrieveSession,
    event: RetrieveEvent,
    after: RetrieveSession,
    action: RetrieveAction,
)
    requires
        before.steps_to(event, after, action),
        action is Stream,
    ensures
        before.spec_phase() == RetrievePhase::Blob,
        event is BlobOpened,
        action->decoder.key() == before.key(),
        action->filename@ == before.filename(),
{
}

/// Round trip of a store operation. Once the input has ended and the blob
/// is complete, the mnemonic that the operation will answer with carries the
/// object's secret; the record it asks to be inserted opens, under that
/// mnemonic, to the filename; and what it handed to the blob store reads
/// back, under the secret, as the chunks it took from the caller.
pub proof fn lemma_stored_object_reads_back(session: StoreSession)
    requires
        session.wf(),
        session.spec_phase() == StorePhase::Recording,
    ensures
        secret_of(session.mnemonic()) == Some(session.secret()),
        restored_filename(
            session.mnemonic(),
            session.record().filename_cipher,
            session.record().filename_nonce,
        ) == Ok::<Seq<char>, BlobError>(session.filename()),
        decode_blob(session.secret(), session.written()) == (Decoded {
            chunks: session.chunks(),
            ending: Ending::Exhausted,
        }),
        decode_blob(session.secret(), session.written()).outcome() == Ok::<Seq<u8>, BlobError>(
            session.chunks().flatten(),
        ),
{
    encode_utf8_valid_utf8(session.filename());
    encode_utf8_decode_utf8(session.filename());
}

/// No record for an unfinished blob. A store operation asks for its record
/// to be inserted only on the news that the input has ended, and only while
/// it waits for the next chunk, that is with every frame appended; the record
/// is then the one of the object.
pub proof fn lemma_record_only_for_a_complete_blob(
    before: StoreSession,
    event: StoreEvent,
    after: StoreSession,
    action: StoreAction,
)
    requires
        before.steps_to(event, after, action),
        action is InsertRecord,
    ensures
        before.spec_phase() == StorePhase::Reading,
        event is InputEnded,
        after.spec_phase() == StorePhase::Recording,
        action->InsertRecord_0@ == before.record(),
{
}

/// The mnemonic leaves only once the record is in. A store operation answers
/// with the mnemonic only on the news that the record was inserted.
pub proof fn lemma_mnemonic_only_after_the_record(
    before: StoreSession,
    event: StoreEvent,
    after: StoreSession,
    action: StoreAction,
)
    requires
        before.steps_to(event, after, action),
        action is Respond,
    ensures
        before.spec_phase() == StorePhase::Recording,
        event is RecordInserted,
        action->Respond_0@ == before.mnemonic(),
{
}

/// No failure leaves a blob behind unasked. A store operation answers with
/// a failure only before the blob was created, or after it has asked for the
/// blob to be removed, or when it had answered already.
pub proof fn lemma_failure_only_after_cleaning(
    before: StoreSession,
    event: StoreEvent,
    after: StoreSession,
    action: StoreAction,
)
    requires
        before.steps_to(event, after, action),
        action is Fail,
    ensures
        before.spec_phase() == StorePhase::Creating || before.spec_phase() == StorePhase::Cleaning
            || before.spec_phase() == StorePhase::Finished,
        after.spec_phase() == StorePhase::Finished,
{
}

/// A collision of addresses is a failure, never an overwrite. A store
/// operation that learns that a blob exists under its address answers with
/// `DuplicateBlob` and is finished: it has asked for no frame to be appended
/// and for nothing to be removed, and whatever it is told afterwards, it
/// asks for nothing more.
pub proof fn lemma_existing_blob_is_left_alone(
    before: StoreSession,
    after: StoreSession,
    action: StoreAction,
    later: StoreEvent,
    last: StoreSession,
    answer: StoreAction,
)
    requires
        before.spec_phase() == StorePhase::Creating,
        before.steps_to(StoreEvent::BlobExists, after, action),
        after.steps_to(later, last, answer),
    ensures
        action == StoreAction::Fail(BlobError::DuplicateBlob),
        after.written() == before.written(),
        answer == StoreAction::Fail(BlobError::IllegalState),
        last.spec_phase() == StorePhase::Finished,
{
}

/// The frames lie in the order of the chunks. A step of a store operation
/// leaves what was handed to the blob store as it was, or puts exactly one
/// frame behind it, the frame of the chunk just taken.
pub proof fn lemma_blob_only_grows_by_frames(
    before: StoreSession,
    event: StoreEvent,
    after: StoreSession,
    action: StoreAction,
)
    requires
        before.steps_to(event, after, action),
    ensures
        action matches StoreAction::AppendFrame(frame) ==> ({
            &&& after.written() == before.written() + frame@
            &&& event matches StoreEvent::Chunk(chunk)
            &&& after.chunks() == before.chunks().push(chunk@)
        }),
        !(action is AppendFrame) ==> after.written() == before.written() && after.chunks()
            == before.chunks(),
{
}

/// A deletion removes the record before the blob. It asks for the blob to
/// be removed only on the news that the record was deleted, and it answers with
/// success only on the news that the blob was removed or was gone already.
pub proof fn lemma_delete_order(
    address: Seq<char>,
    before: DeletePhase,
    event: DeleteEvent,
    after: DeletePhase,
    action: DeleteAction,
)
    requires
        delete_step(address, before, event, after, action),
    ensures
        action is RemoveBlob ==> before == DeletePhase::Record && event
            == DeleteEvent::RecordDeleted,
        action is Succeed ==> before == DeletePhase::Blob && (event == DeleteEvent::BlobRemoved
            || event == DeleteEvent::BlobMissing),
        !(action is RemoveBlob) ==> after == DeletePhase::Finished,
{
}

} // verus!
