//! The blob format: frames laid back to back, with no header and no trailer.
//!
//! ```text
//! blob  := frame*
//! frame := length: u64, big-endian | nonce: 12 bytes | sealed: length bytes
//! ```
//!
//! `sealed` is a chunk's ciphertext followed by its 16-byte tag. The end of
//! the input after a whole frame is the only terminator.

use crate::big_endian::{
    be_bytes, be_value, lemma_be_bytes_len, lemma_be_value_of_bytes, pow256, u64_from_be_bytes,
    u64_to_be_bytes,
};
use crate::cipher::NONCE_LEN;
use vstd::prelude::*;

verus! {

/// Bytes in the length field of a frame.
pub const LENGTH_LEN: usize = 8;

/// Bytes before the sealed part of a frame: the length field and the nonce.
pub const HEADER_LEN: usize = 20;

/// Bytes that a frame adds to its chunk: length field, nonce and tag.
pub const FRAME_OVERHEAD: usize = 36;

/// The bytes of the frame that carries `sealed` under `nonce`.
pub open spec fn frame_bytes(nonce: Seq<u8>, sealed: Seq<u8>) -> Seq<u8> {
    be_bytes(sealed.len(), LENGTH_LEN as nat) + nonce + sealed
}

/// The nonce that a frame carries.
pub open spec fn frame_nonce(frame: Seq<u8>) -> Seq<u8>
    recommends
        frame.len() >= HEADER_LEN,
{
    frame.subrange(LENGTH_LEN as int, HEADER_LEN as int)
}

/// How a byte string begins, read as a blob.
pub enum FirstFrame {
    /// There are no bytes: the input ends at a frame boundary.
    End,
    /// The input ends inside the length field, the nonce or the sealed part.
    Truncated,
    /// A whole frame, and the bytes that follow it.
    Frame { nonce: Seq<u8>, sealed: Seq<u8>, rest: Seq<u8> },
}

/// The value of the length field that `input` begins with.
pub open spec fn length_field(input: Seq<u8>) -> nat
    recommends
        input.len() >= LENGTH_LEN,
{
    be_value(input.subrange(0, LENGTH_LEN as int))
}

/// Splits the first frame off `input`.
pub open spec fn first_frame(input: Seq<u8>) -> FirstFrame {
    if input.len() == 0 {
        FirstFrame::End
    } else if input.len() < HEADER_LEN {
        FirstFrame::Truncated
    } else if input.len() - HEADER_LEN < length_field(input) {
        FirstFrame::Truncated
    } else {
        let end = HEADER_LEN + length_field(input);
        FirstFrame::Frame {
            nonce: frame_nonce(input),
            sealed: input.subrange(HEADER_LEN as int, end),
            rest: input.skip(end),
        }
    }
}

/// Reading what was written: a frame followed by `rest` splits into the
/// nonce, the sealed part and `rest`.
pub proof fn lemma_first_frame_of_frame(nonce: Seq<u8>, sealed: Seq<u8>, rest: Seq<u8>)
    requires
        nonce.len() == NONCE_LEN,
        sealed.len() < pow256(LENGTH_LEN as nat),
    ensures
        first_frame(frame_bytes(nonce, sealed) + rest) == (FirstFrame::Frame { nonce, sealed, rest }),
{
    let field = be_bytes(sealed.len(), LENGTH_LEN as nat);
    let input = frame_bytes(nonce, sealed) + rest;
    lemma_be_bytes_len(sealed.len(), LENGTH_LEN as nat);
    lemma_be_value_of_bytes(sealed.len(), LENGTH_LEN as nat);
    assert(input.subrange(0, LENGTH_LEN as int) == field);
    let end = HEADER_LEN + sealed.len();
    assert(input.subrange(LENGTH_LEN as int, HEADER_LEN as int) == nonce);
    assert(input.subrange(HEADER_LEN as int, end) == sealed);
    assert(input.skip(end) == rest);
}

/// Bytes appended behind a whole first frame leave that frame as it is and
/// lengthen what follows it.
pub proof fn lemma_first_frame_append(input: Seq<u8>, more: Seq<u8>)
    requires
        first_frame(input) is Frame,
    ensures
        first_frame(input + more) == (FirstFrame::Frame {
            nonce: first_frame(input)->nonce,
            sealed: first_frame(input)->sealed,
            rest: first_frame(input)->rest + more,
        }),
{
    let longer = input + more;
    assert(longer.subrange(0, LENGTH_LEN as int) == input.subrange(0, LENGTH_LEN as int));
    let end = HEADER_LEN + length_field(input);
    assert(longer.subrange(LENGTH_LEN as int, HEADER_LEN as int) == input.subrange(
        LENGTH_LEN as int,
        HEADER_LEN as int,
    ));
    assert(longer.subrange(HEADER_LEN as int, end) == input.subrange(HEADER_LEN as int, end));
    assert(longer.skip(end) == input.skip(end) + more);
}

/// Writes the frame that carries `sealed` under `nonce`.
pub fn encode_frame(nonce: &[u8; 12], sealed: &[u8]) -> (frame: Vec<u8>)
    ensures
        frame@ == frame_bytes(nonce@, sealed@),
        frame@.len() == HEADER_LEN + sealed@.len(),
{
    let length = u64_to_be_bytes(sealed.len() as u64);
    let mut frame: Vec<u8> = Vec::new();
    frame.extend_from_slice(length.as_slice());
    frame.extend_from_slice(nonce.as_slice());
    frame.extend_from_slice(sealed);
    frame
}

/// Reads a frame's header: the length of its sealed part, and its nonce.
/// Anything but 20 bytes is no header.
pub fn decode_header(header: &[u8]) -> (fields: Option<(u64, [u8; 12])>)
    ensures
        fields is Some <==> header@.len() == HEADER_LEN,
        fields matches Some(f) ==> f.0 as nat == length_field(header@) && f.1@ == frame_nonce(
            header@,
        ),
{
    if header.len() != HEADER_LEN {
        return None;
    }
    let mut field = [0u8; 8];
    let mut i: usize = 0;
    while i < LENGTH_LEN
        invariant
            i <= LENGTH_LEN,
            header@.len() == HEADER_LEN,
            forall|j: int| 0 <= j < i ==> field@[j] == header@[j],
        decreases LENGTH_LEN - i,
    {
        field[i] = header[i];
        i = i + 1;
    }
    let mut nonce = [0u8; 12];
    let mut k: usize = 0;
    while k < NONCE_LEN
        invariant
            k <= NONCE_LEN,
            header@.len() == HEADER_LEN,
            forall|j: int| 0 <= j < k ==> nonce@[j] == header@[LENGTH_LEN + j],
        decreases NONCE_LEN - k,
    {
        nonce[k] = header[LENGTH_LEN + k];
        k = k + 1;
    }
    proof {
        assert(field@ =~= header@.subrange(0, LENGTH_LEN as int));
    }
    Some((u64_from_be_bytes(&field), nonce))
}

} // verus!
