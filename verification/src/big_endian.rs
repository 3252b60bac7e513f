//! Unsigned integers as byte strings, most significant byte first.
//!
//! The length field of a frame is a 64-bit integer written this way.

use vstd::prelude::*;

verus! {

/// The number of values that `width` bytes can spell: 256 to the power `width`.
pub open spec fn pow256(width: nat) -> nat
    decreases width,
{
    if width == 0 {
        1
    } else {
        256 * pow256((width - 1) as nat)
    }
}

/// The number that `bytes` spells, most significant byte first.
pub open spec fn be_value(bytes: Seq<u8>) -> nat
    decreases bytes.len(),
{
    if bytes.len() == 0 {
        0
    } else {
        be_value(bytes.drop_last()) * 256 + bytes.last() as nat
    }
}

/// The `width` low-order base-256 digits of `n`, most significant first.
pub open spec fn be_bytes(n: nat, width: nat) -> Seq<u8>
    decreases width,
{
    if width == 0 {
        Seq::empty()
    } else {
        be_bytes(n / 256, (width - 1) as nat).push((n % 256) as u8)
    }
}

/// Eight bytes spell exactly the 64-bit integers.
pub proof fn lemma_pow256_of_8()
    ensures
        pow256(8) == 0x1_0000_0000_0000_0000,
{
    reveal_with_fuel(pow256, 9);
}

/// An encoding has as many bytes as were asked for.
pub proof fn lemma_be_bytes_len(n: nat, width: nat)
    ensures
        be_bytes(n, width).len() == width,
    decreases width,
{
    if width > 0 {
        lemma_be_bytes_len(n / 256, (width - 1) as nat);
    }
}

/// What `bytes` spells is below 256 to the power of its length.
pub proof fn lemma_be_value_bound(bytes: Seq<u8>)
    ensures
        be_value(bytes) < pow256(bytes.len()),
    decreases bytes.len(),
{
    if bytes.len() > 0 {
        lemma_be_value_bound(bytes.drop_last());
    }
}

/// Decoding undoes encoding, for a number that fits in `width` bytes.
pub proof fn lemma_be_value_of_bytes(n: nat, width: nat)
    requires
        n < pow256(width),
    ensures
        be_value(be_bytes(n, width)) == n,
    decreases width,
{
    if width > 0 {
        let head = be_bytes(n / 256, (width - 1) as nat);
        lemma_be_value_of_bytes(n / 256, (width - 1) as nat);
        assert(be_bytes(n, width).drop_last() == head);
    }
}

/// Encoding undoes decoding, at the length of the bytes decoded.
pub proof fn lemma_be_bytes_of_value(bytes: Seq<u8>)
    ensures
        be_bytes(be_value(bytes), bytes.len()) == bytes,
    decreases bytes.len(),
{
    if bytes.len() > 0 {
        lemma_be_bytes_of_value(bytes.drop_last());
    }
}

/// The eight bytes of `n`, most significant first.
pub fn u64_to_be_bytes(n: u64) -> (out: [u8; 8])
    ensures
        out@ == be_bytes(n as nat, 8),
{
    let mut out = [0u8; 8];
    let mut rest: u64 = n;
    let mut i: usize = 8;
    while i > 0
        invariant
            i <= 8,
            be_bytes(n as nat, 8) == be_bytes(rest as nat, i as nat) + out@.subrange(i as int, 8),
        decreases i,
    {
        i = i - 1;
        out[i] = (rest % 256) as u8;
        rest = rest / 256;
    }
    out
}

/// The 64-bit integer that eight bytes spell, most significant first.
pub fn u64_from_be_bytes(bytes: &[u8; 8]) -> (n: u64)
    ensures
        n as nat == be_value(bytes@),
{
    let mut acc: u64 = 0;
    let mut i: usize = 0;
    while i < 8
        invariant
            i <= 8,
            acc as nat == be_value(bytes@.subrange(0, i as int)),
        decreases 8 - i,
    {
        proof {
            let next = bytes@.subrange(0, i + 1);
            assert(next.drop_last() == bytes@.subrange(0, i as int));
            lemma_be_value_bound(next);
            lemma_pow256_of_8();
            lemma_pow256_grows((i + 1) as nat, 8);
        }
        acc = acc * 256 + bytes[i] as u64;
        i = i + 1;
    }
    proof {
        assert(bytes@.subrange(0, 8) == bytes@);
    }
    acc
}

/// More bytes spell more values.
pub proof fn lemma_pow256_grows(shorter: nat, longer: nat)
    requires
        shorter <= longer,
    ensures
        pow256(shorter) <= pow256(longer),
    decreases longer,
{
    if shorter < longer {
        lemma_pow256_grows(shorter, (longer - 1) as nat);
    }
}

} // verus!
