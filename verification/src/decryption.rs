//! Reading a blob: the sequence of decrypted chunks, and the sealed filename.

use crate::big_endian::pow256;
use crate::cipher::{aead_opened, open, NONCE_LEN};
use crate::decoder::{item_view, DecoderState, FrameDecoder, Request};
use crate::error::BlobError;
use crate::frame::{
    first_frame, frame_bytes, lemma_first_frame_append, lemma_first_frame_of_frame, FirstFrame,
    HEADER_LEN, LENGTH_LEN,
};
use crate::mnemonic::{mnemonic_to_key, secret_of};
use vstd::prelude::*;
use vstd::slice::slice_subrange;
use vstd::utf8::{decode_utf8, valid_utf8};

verus! {

/// The filename that a sealed filename opens to under `key` and `nonce`:
/// `AuthenticationFailure` where the cipher rejects it, `InvalidEncoding`
/// where what it opens to is not UTF-8.
pub open spec fn unsealed_filename(key: Seq<u8>, cipher: Seq<u8>, nonce: Seq<u8>) -> Result<
    Seq<char>,
    BlobError,
> {
    match aead_opened(key, nonce, cipher) {
        Some(bytes) => if valid_utf8(bytes) {
            Ok(decode_utf8(bytes))
        } else {
            Err(BlobError::InvalidEncoding)
        },
        None => Err(BlobError::AuthenticationFailure),
    }
}

/// The filename that a sealed filename opens to under the secret that
/// `mnemonic` carries; `InvalidMnemonic` where it carries none.
pub open spec fn restored_filename(mnemonic: Seq<char>, cipher: Seq<u8>, nonce: Seq<u8>) -> Result<
    Seq<char>,
    BlobError,
> {
    match secret_of(mnemonic) {
        Some(key) => unsealed_filename(key, cipher, nonce),
        None => Err(BlobError::InvalidMnemonic),
    }
}

/// Reads bytes as text with `String::from_utf8`.
///
/// Trusted: the bytes are accepted exactly where they are valid UTF-8, and
/// the text is then the characters that they encode.
#[verifier::external_body]
fn string_from_utf8(bytes: Vec<u8>) -> (text: Option<String>)
    ensures
        text is Some <==> valid_utf8(bytes@),
        text matches Some(t) ==> t@ == decode_utf8(bytes@),
{
    String::from_utf8(bytes).ok()
}

/// Opens a sealed filename under the secret itself.
pub fn unseal_filename(entropy: &[u8; 32], filename_cipher: Vec<u8>, filename_nonce: [u8; 12]) -> (name:
    Result<String, BlobError>)
    ensures
        unsealed_filename(entropy@, filename_cipher@, filename_nonce@) matches Ok(text) ==> (
        name matches Ok(n) && n@ == text),
        unsealed_filename(entropy@, filename_cipher@, filename_nonce@) matches Err(e) ==> name
            == Err::<String, BlobError>(e),
{
    match open(entropy, &filename_nonce, filename_cipher.as_slice()) {
        Some(bytes) => match string_from_utf8(bytes) {
            Some(text) => Ok(text),
            None => Err(BlobError::InvalidEncoding),
        },
        None => Err(BlobError::AuthenticationFailure),
    }
}

/// Opens the sealed filename of a metadata record under the secret that
/// `mnemonic` carries.
pub fn restore_filename(mnemonic: &str, filename_cipher: Vec<u8>, filename_nonce: [u8; 12]) -> (name:
    Result<String, BlobError>)
    ensures
        restored_filename(mnemonic@, filename_cipher@, filename_nonce@) matches Ok(text) ==> (
        name matches Ok(n) && n@ == text),
        restored_filename(mnemonic@, filename_cipher@, filename_nonce@) matches Err(e) ==> name
            == Err::<String, BlobError>(e),
{
    match mnemonic_to_key(mnemonic) {
        Ok(entropy) => unseal_filename(&entropy, filename_cipher, filename_nonce),
        Err(e) => Err(e),
    }
}

/// How reading a blob ends.
#[derive(Clone, Copy, Debug, PartialEq, Eq, Structural)]
pub enum Ending {
    /// The input ended at a frame boundary.
    Exhausted,
    /// A frame was cut short or did not authenticate.
    Failed(BlobError),
}

/// What reading a blob gives: the chunks of the frames that opened, in
/// order, and how the reading ended.
pub struct Decoded {
    pub chunks: Seq<Seq<u8>>,
    pub ending: Ending,
}

impl Ending {
    /// What a reader is given who asked for all of `content` and met this
    /// ending: the content at the end of the input, and nothing but the
    /// failure after a failure.
    pub open spec fn outcome(self, content: Seq<u8>) -> Result<Seq<u8>, BlobError> {
        match self {
            Ending::Exhausted => Ok(content),
            Ending::Failed(e) => Err(e),
        }
    }
}

impl Decoded {
    /// The chunks, joined.
    pub open spec fn content(self) -> Seq<u8> {
        self.chunks.flatten()
    }

    /// What a reader of the whole is given: the content where the reading
    /// came to the end of the input, and else the failure.
    pub open spec fn outcome(self) -> Result<Seq<u8>, BlobError> {
        self.ending.outcome(self.content())
    }
}

/// What reading to the end gave, by the view of its bytes.
pub open spec fn content_view(content: Result<Vec<u8>, BlobError>) -> Result<Seq<u8>, BlobError> {
    match content {
        Ok(bytes) => Ok(bytes@),
        Err(e) => Err(e),
    }
}

/// The item that a reader under `key` yields first from `input`.
pub open spec fn first_item(key: Seq<u8>, input: Seq<u8>) -> Option<Result<Seq<u8>, BlobError>> {
    match first_frame(input) {
        FirstFrame::End => None,
        FirstFrame::Truncated => Some(Err(BlobError::TruncatedFrame)),
        FirstFrame::Frame { nonce, sealed, rest } => match aead_opened(key, nonce, sealed) {
            Some(chunk) => Some(Ok(chunk)),
            None => Some(Err(BlobError::AuthenticationFailure)),
        },
    }
}

/// Reads `blob` under `key`, frame by frame, up to its end or to the first
/// frame that fails.
pub open spec fn decode_blob(key: Seq<u8>, blob: Seq<u8>) -> Decoded
    decreases blob.len(),
{
    match first_frame(blob) {
        FirstFrame::End => Decoded { chunks: Seq::empty(), ending: Ending::Exhausted },
        FirstFrame::Truncated => Decoded {
            chunks: Seq::empty(),
            ending: Ending::Failed(BlobError::TruncatedFrame),
        },
        FirstFrame::Frame { nonce, sealed, rest } => match aead_opened(key, nonce, sealed) {
            Some(chunk) => {
                let tail = decode_blob(key, rest);
                Decoded { chunks: seq![chunk] + tail.chunks, ending: tail.ending }
            },
            None => Decoded {
                chunks: Seq::empty(),
                ending: Ending::Failed(BlobError::AuthenticationFailure),
            },
        },
    }
}

/// Reading two byte strings laid end to end, where the first reads to its
/// end without a failure: the chunks of the first, then whatever reading the
/// second gives.
pub proof fn lemma_decode_blob_concat(key: Seq<u8>, before: Seq<u8>, after: Seq<u8>)
    requires
        decode_blob(key, before).ending == Ending::Exhausted,
    ensures
        decode_blob(key, before + after) == (Decoded {
            chunks: decode_blob(key, before).chunks + decode_blob(key, after).chunks,
            ending: decode_blob(key, after).ending,
        }),
    decreases before.len(),
{
    match first_frame(before) {
        FirstFrame::End => {},
        FirstFrame::Truncated => {},
        FirstFrame::Frame { nonce, sealed, rest } => {
            let chunk = aead_opened(key, nonce, sealed)->0;
            lemma_first_frame_append(before, after);
            lemma_decode_blob_concat(key, rest, after);
            assert(seq![chunk] + (decode_blob(key, rest).chunks + decode_blob(key, after).chunks)
                == (seq![chunk] + decode_blob(key, rest).chunks) + decode_blob(key, after).chunks);
        },
    }
}

/// Reading a blob with one more frame behind it, where the blob reads to its
/// end without a failure: the chunks of the blob, then the chunk that the
/// frame opens to, or an authentication failure where it does not open.
pub proof fn lemma_decode_blob_append(key: Seq<u8>, blob: Seq<u8>, nonce: Seq<u8>, sealed: Seq<u8>)
    requires
        decode_blob(key, blob).ending == Ending::Exhausted,
        nonce.len() == NONCE_LEN,
        sealed.len() < pow256(LENGTH_LEN as nat),
    ensures
        aead_opened(key, nonce, sealed) matches Some(chunk) ==> decode_blob(
            key,
            blob + frame_bytes(nonce, sealed),
        ) == (Decoded { chunks: decode_blob(key, blob).chunks.push(chunk), ending: Ending::Exhausted }),
        aead_opened(key, nonce, sealed) is None ==> decode_blob(
            key,
            blob + frame_bytes(nonce, sealed),
        ) == (Decoded {
            chunks: decode_blob(key, blob).chunks,
            ending: Ending::Failed(BlobError::AuthenticationFailure),
        }),
{
    let frame = frame_bytes(nonce, sealed);
    lemma_decode_blob_concat(key, blob, frame);
    lemma_first_frame_of_frame(nonce, sealed, Seq::empty());
    assert(decode_blob(key, Seq::empty()) == (Decoded {
        chunks: Seq::empty(),
        ending: Ending::Exhausted,
    }));
    if let Some(chunk) = aead_opened(key, nonce, sealed) {
        let chunks = decode_blob(key, blob).chunks;
        assert(chunks + (seq![chunk] + Seq::<Seq<u8>>::empty()) == chunks.push(chunk));
    }
}

/// The decrypted chunks of one blob, in order: a finite, forward-only
/// sequence that ends for good at the end of the input or at the first
/// failure.
pub struct DecryptionIter {
    decoder: FrameDecoder,
    source: Vec<u8>,
    position: usize,
}

impl DecryptionIter {
    /// The reader stands between frames, inside its input.
    pub closed spec fn wf(&self) -> bool {
        &&& self.position <= self.source@.len()
        &&& !(self.decoder.spec_state() is Body)
    }

    /// The key that frames are opened under.
    pub closed spec fn key(&self) -> Seq<u8> {
        self.decoder.key()
    }

    /// The input not yet read.
    pub closed spec fn remaining(&self) -> Seq<u8> {
        self.source@.skip(self.position as int)
    }

    /// `None` while the sequence is open, else how it ended.
    pub closed spec fn ending(&self) -> Option<Ending> {
        match self.decoder.spec_state() {
            DecoderState::Exhausted => Some(Ending::Exhausted),
            DecoderState::Failed(e) => Some(Ending::Failed(e)),
            _ => None,
        }
    }

    /// A reader at the start of `blob`, for the secret that `mnemonic`
    /// carries; `InvalidMnemonic` where it carries none.
    pub fn new(blob: Vec<u8>, mnemonic: &str) -> (iter: Result<DecryptionIter, BlobError>)
        ensures
            secret_of(mnemonic@) is None ==> iter == Err::<DecryptionIter, BlobError>(
                BlobError::InvalidMnemonic,
            ),
            secret_of(mnemonic@) matches Some(entropy) ==> (iter matches Ok(it) && it.wf()
                && it.key() == entropy && it.remaining() == blob@ && it.ending() is None),
    {
        match FrameDecoder::new(mnemonic) {
            Ok(decoder) => Ok(DecryptionIter { decoder, source: blob, position: 0 }),
            Err(e) => Err(e),
        }
    }

    /// How the sequence ended, once it has.
    pub fn ended(&self) -> (ending: Option<Ending>)
        ensures
            ending == self.ending(),
    {
        match self.decoder.state() {
            DecoderState::Exhausted => Some(Ending::Exhausted),
            DecoderState::Failed(e) => Some(Ending::Failed(e)),
            _ => None,
        }
    }

    /// Up to `wanted` bytes of the unread input, as many as there are.
    fn available(&self, wanted: u64) -> (count: usize)
        requires
            self.position <= self.source@.len(),
        ensures
            wanted <= self.source@.len() - self.position ==> count == wanted,
            wanted > self.source@.len() - self.position ==> count == self.source@.len()
                - self.position,
            self.position + count <= usize::MAX,
    {
        let left = self.source.len() - self.position;
        if wanted <= left as u64 {
            wanted as usize
        } else {
            left
        }
    }

    /// The next item of the sequence.
    ///
    /// While the sequence is open this is the first item of the unread
    /// input: a chunk, after which the reader stands behind that chunk's
    /// frame; a failure, which ends the sequence; or nothing, at the end of
    /// the input. Once the sequence has ended, nothing more comes.
    pub fn next(&mut self) -> (item: Option<Result<Vec<u8>, BlobError>>)
        requires
            old(self).wf(),
        ensures
            final(self).wf(),
            final(self).key() == old(self).key(),
            old(self).ending() is Some ==> item is None && final(self).ending() == old(self).ending(),
            old(self).ending() is None ==> item_view(item) == first_item(
                old(self).key(),
                old(self).remaining(),
            ),
            item matches Some(Ok(_)) ==> final(self).ending() is None && final(self).remaining()
                == first_frame(old(self).remaining())->rest,
            item matches Some(Err(e)) ==> final(self).ending() == Some(Ending::Failed(e)),
            old(self).ending() is None && item is None ==> final(self).ending() == Some(
                Ending::Exhausted,
            ),
    {
        let ghost input = self.remaining();
        match self.decoder.request() {
            Request::Stop => None,
            Request::Read(header_len) => {
                let start = self.position;
                let count = self.available(header_len);
                let header = slice_subrange(self.source.as_slice(), start, start + count);
                self.position = start + count;
                match self.decoder.feed(header) {
                    Some(item) => Some(item),
                    None => match self.decoder.request() {
                        Request::Stop => None,
                        Request::Read(length) => {
                            let start = self.position;
                            let count = self.available(length);
                            let body = slice_subrange(
                                self.source.as_slice(),
                                start,
                                start + count,
                            );
                            self.position = start + count;
                            proof {
                                assert(header@.subrange(0, 8) == input.subrange(0, 8));
                                assert(header@.subrange(8, 20) == input.subrange(8, 20));
                                assert(body@ == input.subrange(
                                    HEADER_LEN as int,
                                    HEADER_LEN + count,
                                ));
                            }
                            self.decoder.feed(body)
                        },
                    },
                }
            },
        }
    }

    /// Reads the sequence to its end and joins the chunks that come.
    ///
    /// This is the content of the unread input where every frame of it
    /// opens, and else the failure of the first frame that does not. No chunk
    /// is handed out beside a failure. A sequence that had failed before
    /// gives that failure again; one that was exhausted gives no bytes.
    pub fn read_to_end(&mut self) -> (content: Result<Vec<u8>, BlobError>)
        requires
            old(self).wf(),
        ensures
            final(self).wf(),
            final(self).key() == old(self).key(),
            old(self).ending() matches Some(ending) ==> final(self).ending() == Some(ending)
                && content_view(content) == ending.outcome(Seq::empty()),
            old(self).ending() is None ==> final(self).ending() == Some(
                decode_blob(old(self).key(), old(self).remaining()).ending,
            ) && content_view(content) == decode_blob(
                old(self).key(),
                old(self).remaining(),
            ).outcome(),
    {
        match self.ended() {
            Some(Ending::Exhausted) => {
                return Ok(Vec::new());
            },
            Some(Ending::Failed(e)) => {
                return Err(e);
            },
            None => {},
        }
        let ghost whole = decode_blob(self.key(), self.remaining());
        let ghost mut seen: Seq<Seq<u8>> = Seq::empty();
        let mut content: Vec<u8> = Vec::new();
        loop
            invariant
                self.wf(),
                self.key() == old(self).key(),
                self.ending() is None,
                old(self).ending() is None,
                content@ == seen.flatten(),
                whole.chunks == seen + decode_blob(self.key(), self.remaining()).chunks,
                whole.ending == decode_blob(self.key(), self.remaining()).ending,
                whole == decode_blob(old(self).key(), old(self).remaining()),
            decreases self.remaining().len(),
        {
            match self.next() {
                Some(Ok(mut chunk)) => {
                    proof {
                        seen.lemma_flatten_push(chunk@);
                        seen = seen.push(chunk@);
                    }
                    content.append(&mut chunk);
                },
                Some(Err(e)) => {
                    return Err(e);
                },
                None => {
                    return Ok(content);
                },
            }
        }
    }
}

} // verus!
