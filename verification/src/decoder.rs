//! The frame decoder: the decisions of reading a blob, apart from the reading.
//!
//! A decoder never touches a source. It says how many bytes it wants next
//! ([`FrameDecoder::request`]), is handed what the source gave for that
//! request ([`FrameDecoder::feed`]), and answers with the chunk or the
//! failure that this step produced, if any. Whoever owns the source, a file
//! or a buffer, runs that loop.

use crate::cipher::{aead_opened, open};
use crate::error::BlobError;
use crate::frame::{decode_header, frame_nonce, length_field, HEADER_LEN};
use crate::mnemonic::{mnemonic_to_key, secret_of};
use vstd::prelude::*;

verus! {

/// Where a decoder stands.
#[derive(Clone, Copy, Debug)]
pub enum DecoderState {
    /// Between frames: a header is wanted.
    Header,
    /// A header was read: the sealed part it announces is wanted.
    Body { nonce: [u8; 12], length: u64 },
    /// The input ended at a frame boundary. Terminal.
    Exhausted,
    /// A frame was cut short or did not authenticate. Terminal.
    Failed(BlobError),
}

/// What a decoder asks of the source.
#[derive(Clone, Copy, Debug, PartialEq, Eq, Structural)]
pub enum Request {
    /// Read this many bytes; hand over fewer only where the source ends first.
    Read(u64),
    /// Read nothing more: the sequence has ended.
    Stop,
}

/// An item of the decrypted sequence, by the views of its bytes.
pub open spec fn item_view(item: Option<Result<Vec<u8>, BlobError>>) -> Option<
    Result<Seq<u8>, BlobError>,
> {
    match item {
        Some(Ok(chunk)) => Some(Ok(chunk@)),
        Some(Err(e)) => Some(Err(e)),
        None => None,
    }
}

/// What a decoder in `state` asks for.
pub open spec fn requested(state: DecoderState) -> Request {
    match state {
        DecoderState::Header => Request::Read(HEADER_LEN as u64),
        DecoderState::Body { nonce, length } => Request::Read(length),
        DecoderState::Exhausted => Request::Stop,
        DecoderState::Failed(_) => Request::Stop,
    }
}

/// One step of decoding under `key`: a decoder in state `before`, fed
/// `input`, goes to `after` and yields `item`.
///
/// Between frames, no input at all is the end of the sequence, and anything
/// but a whole header is a cut frame. After a header, anything but the whole
/// sealed part is a cut frame; a whole one is opened, and yields its chunk or
/// an authentication failure. A decoder that has ended stays as it is and
/// yields nothing.
pub open spec fn decoder_step(
    key: Seq<u8>,
    before: DecoderState,
    input: Seq<u8>,
    after: DecoderState,
    item: Option<Result<Seq<u8>, BlobError>>,
) -> bool {
    match before {
        DecoderState::Header => if input.len() == 0 {
            after is Exhausted && item is None
        } else if input.len() != HEADER_LEN {
            after == DecoderState::Failed(BlobError::TruncatedFrame) && item == Some(
                Err::<Seq<u8>, BlobError>(BlobError::TruncatedFrame),
            )
        } else {
            &&& after matches DecoderState::Body { nonce, length }
            &&& nonce@ == frame_nonce(input)
            &&& length as nat == length_field(input)
            &&& item is None
        },
        DecoderState::Body { nonce, length } => if input.len() != length {
            after == DecoderState::Failed(BlobError::TruncatedFrame) && item == Some(
                Err::<Seq<u8>, BlobError>(BlobError::TruncatedFrame),
            )
        } else {
            match aead_opened(key, nonce@, input) {
                Some(chunk) => after is Header && item == Some(Ok::<Seq<u8>, BlobError>(chunk)),
                None => after == DecoderState::Failed(BlobError::AuthenticationFailure) && item
                    == Some(Err::<Seq<u8>, BlobError>(BlobError::AuthenticationFailure)),
            }
        },
        DecoderState::Exhausted => after is Exhausted && item is None,
        DecoderState::Failed(e) => after == before && item is None,
    }
}

/// A decoder for the frames of one blob, holding the blob's secret.
pub struct FrameDecoder {
    entropy: [u8; 32],
    state: DecoderState,
}

impl FrameDecoder {
    /// The key that frames are opened under.
    pub closed spec fn key(&self) -> Seq<u8> {
        self.entropy@
    }

    /// Where the decoder stands.
    pub closed spec fn spec_state(&self) -> DecoderState {
        self.state
    }

    /// A decoder at the start of a blob, for the secret that `mnemonic`
    /// carries; `InvalidMnemonic` where it carries none.
    pub fn new(mnemonic: &str) -> (decoder: Result<FrameDecoder, BlobError>)
        ensures
            secret_of(mnemonic@) is None ==> decoder == Err::<FrameDecoder, BlobError>(
                BlobError::InvalidMnemonic,
            ),
            secret_of(mnemonic@) matches Some(entropy) ==> (decoder matches Ok(d) && d.key()
                == entropy && d.spec_state() is Header),
    {
        match mnemonic_to_key(mnemonic) {
            Ok(entropy) => Ok(FrameDecoder::with_entropy(entropy)),
            Err(e) => Err(e),
        }
    }

    /// A decoder at the start of a blob, for the secret itself.
    pub fn with_entropy(entropy: [u8; 32]) -> (decoder: FrameDecoder)
        ensures
            decoder.key() == entropy@,
            decoder.spec_state() is Header,
    {
        FrameDecoder { entropy, state: DecoderState::Header }
    }

    /// Where the decoder stands.
    #[verifier::when_used_as_spec(spec_state)]
    pub fn state(&self) -> (state: DecoderState)
        ensures
            state == self.spec_state(),
    {
        self.state
    }

    /// What the decoder wants next: the bytes of a header, the bytes of the
    /// sealed part that the last header announced, or nothing more.
    pub fn request(&self) -> (request: Request)
        ensures
            request == requested(self.spec_state()),
    {
        match self.state {
            DecoderState::Header => Request::Read(HEADER_LEN as u64),
            DecoderState::Body { nonce, length } => Request::Read(length),
            DecoderState::Exhausted => Request::Stop,
            DecoderState::Failed(_) => Request::Stop,
        }
    }

    /// Takes what the source gave for the last request and makes one step.
    pub fn feed(&mut self, input: &[u8]) -> (item: Option<Result<Vec<u8>, BlobError>>)
        ensures
            final(self).key() == old(self).key(),
            decoder_step(
                old(self).key(),
                old(self).spec_state(),
                input@,
                final(self).spec_state(),
                item_view(item),
            ),
    {
        match self.state {
            DecoderState::Header => {
                if input.len() == 0 {
                    self.state = DecoderState::Exhausted;
                    None
                } else {
                    match decode_header(input) {
                        Some((length, nonce)) => {
                            self.state = DecoderState::Body { nonce, length };
                            None
                        },
                        None => {
                            self.state = DecoderState::Failed(BlobError::TruncatedFrame);
                            Some(Err(BlobError::TruncatedFrame))
                        },
                    }
                }
            },
            DecoderState::Body { nonce, length } => {
                if input.len() as u64 != length {
                    self.state = DecoderState::Failed(BlobError::TruncatedFrame);
                    Some(Err(BlobError::TruncatedFrame))
                } else {
                    match open(&self.entropy, &nonce, input) {
                        Some(chunk) => {
                            self.state = DecoderState::Header;
                            Some(Ok(chunk))
                        },
                        None => {
                            self.state = DecoderState::Failed(BlobError::AuthenticationFailure);
                            Some(Err(BlobError::AuthenticationFailure))
                        },
                    }
                }
            },
            DecoderState::Exhausted => None,
            DecoderState::Failed(_) => None,
        }
    }
}

} // verus!
