//! Little-endian byte decoding and the trailer pre-sizing convention.
//!
//! General-purpose codecs of the gzip family append the original size of the
//! data as a four-byte little-endian integer at the very end of the
//! compressed buffer. Reading it back gives the decompression buffer's
//! capacity hint without walking any header.

use vstd::prelude::*;
use crate::error::{CodecError, FrameParseError, Phase};
use crate::decomp::gzip_inflate;

verus! {

/// The value of a byte sequence read as a little-endian integer.
pub open spec fn le_bytes(s: Seq<u8>) -> nat
    decreases s.len(),
{
    if s.len() == 0 {
        0
    } else {
        (s[0] as nat) + 256 * le_bytes(s.drop_first())
    }
}

/// A two-byte sequence read little-endian.
pub proof fn lemma_le_bytes_2(s: Seq<u8>)
    requires
        s.len() == 2,
    ensures
        le_bytes(s) == (s[0] as nat) + 256 * (s[1] as nat),
{
    let s1 = s.drop_first();
    let s2 = s1.drop_first();
    assert(s2.len() == 0);
    assert(le_bytes(s2) == 0);
    assert(le_bytes(s1) == (s1[0] as nat) + 256 * le_bytes(s2));
    assert(le_bytes(s) == (s[0] as nat) + 256 * le_bytes(s1));
    assert(s1[0] == s[1]);
}

/// A four-byte sequence read little-endian.
pub proof fn lemma_le_bytes_4(s: Seq<u8>)
    requires
        s.len() == 4,
    ensures
        le_bytes(s) == (s[0] as nat) + 0x100 * (s[1] as nat) + 0x10000 * (s[2] as nat) + 0x1000000
            * (s[3] as nat),
{
    let s1 = s.drop_first();
    let s2 = s1.drop_first();
    lemma_le_bytes_2(s2);
    assert(s2[0] == s[2] && s2[1] == s[3]);
    assert(le_bytes(s1) == (s1[0] as nat) + 256 * le_bytes(s2));
    assert(le_bytes(s) == (s[0] as nat) + 256 * le_bytes(s1));
    assert(s1[0] == s[1]);
    assert(le_bytes(s) == (s[0] as nat) + 256 * ((s[1] as nat) + 256 * ((s[2] as nat) + 256 * (
    s[3] as nat))));
}

/// An eight-byte sequence read little-endian.
pub proof fn lemma_le_bytes_8(s: Seq<u8>)
    requires
        s.len() == 8,
    ensures
        le_bytes(s) == (s[0] as nat) + 0x100 * (s[1] as nat) + 0x10000 * (s[2] as nat) + 0x1000000
            * (s[3] as nat) + 0x100000000 * (s[4] as nat) + 0x10000000000 * (s[5] as nat)
            + 0x1000000000000 * (s[6] as nat) + 0x100000000000000 * (s[7] as nat),
{
    let s1 = s.drop_first();
    let s2 = s1.drop_first();
    let s3 = s2.drop_first();
    let s4 = s3.drop_first();
    lemma_le_bytes_4(s4);
    assert(s4[0] == s[4] && s4[1] == s[5] && s4[2] == s[6] && s4[3] == s[7]);
    assert(le_bytes(s3) == (s3[0] as nat) + 256 * le_bytes(s4));
    assert(le_bytes(s2) == (s2[0] as nat) + 256 * le_bytes(s3));
    assert(le_bytes(s1) == (s1[0] as nat) + 256 * le_bytes(s2));
    assert(le_bytes(s) == (s[0] as nat) + 256 * le_bytes(s1));
    assert(s1[0] == s[1] && s2[0] == s[2] && s3[0] == s[3]);
    assert(le_bytes(s) == (s[0] as nat) + 256 * ((s[1] as nat) + 256 * ((s[2] as nat) + 256 * ((
    s[3] as nat) + 256 * ((s[4] as nat) + 256 * ((s[5] as nat) + 256 * ((s[6] as nat) + 256 * (
    s[7] as nat))))))));
}

/// Read the two bytes at `offset` as a little-endian integer.
pub fn read_le_u16(data: &[u8], offset: usize) -> (r: u16)
    requires
        offset + 2 <= data@.len(),
    ensures
        r as nat == le_bytes(data@.subrange(offset as int, offset as int + 2)),
{
    let b0 = data[offset];
    let b1 = data[offset + 1];
    proof {
        let s = data@.subrange(offset as int, offset as int + 2);
        lemma_le_bytes_2(s);
    }
    (b0 as u16) + 0x100 * (b1 as u16)
}

/// Read the four bytes at `offset` as a little-endian integer.
pub fn read_le_u32(data: &[u8], offset: usize) -> (r: u32)
    requires
        offset + 4 <= data@.len(),
    ensures
        r as nat == le_bytes(data@.subrange(offset as int, offset as int + 4)),
{
    let b0 = data[offset];
    let b1 = data[offset + 1];
    let b2 = data[offset + 2];
    let b3 = data[offset + 3];
    proof {
        let s = data@.subrange(offset as int, offset as int + 4);
        lemma_le_bytes_4(s);
    }
    (b0 as u32) + 0x100 * (b1 as u32) + 0x10000 * (b2 as u32) + 0x1000000 * (b3 as u32)
}

/// Read the eight bytes at `offset` as a little-endian integer.
pub fn read_le_u64(data: &[u8], offset: usize) -> (r: u64)
    requires
        offset + 8 <= data@.len(),
    ensures
        r as nat == le_bytes(data@.subrange(offset as int, offset as int + 8)),
{
    let b0 = data[offset];
    let b1 = data[offset + 1];
    let b2 = data[offset + 2];
    let b3 = data[offset + 3];
    let b4 = data[offset + 4];
    let b5 = data[offset + 5];
    let b6 = data[offset + 6];
    let b7 = data[offset + 7];
    proof {
        let s = data@.subrange(offset as int, offset as int + 8);
        lemma_le_bytes_8(s);
    }
    (b0 as u64) + 0x100 * (b1 as u64) + 0x10000 * (b2 as u64) + 0x1000000 * (b3 as u64)
        + 0x100000000 * (b4 as u64) + 0x10000000000 * (b5 as u64) + 0x1000000000000 * (b6 as u64)
        + 0x100000000000000 * (b7 as u64)
}

/// The size hint a trailer-convention stream declares: its last four bytes
/// read as a little-endian integer, or nothing if the stream is too short to
/// hold a trailer.
pub open spec fn trailer_hint(s: Seq<u8>) -> Option<nat> {
    if s.len() >= 4 {
        Some(le_bytes(s.subrange(s.len() - 4, s.len() as int)))
    } else {
        None
    }
}

/// Extract the declared decompressed size from a trailer-convention stream:
/// the last four bytes, little endian. A stream shorter than the trailer
/// itself is a fatal parse error.
pub fn trailer_size_hint(compressed: &[u8]) -> (r: Result<u32, FrameParseError>)
    ensures
        r is Ok <==> trailer_hint(compressed@) is Some,
        r is Ok ==> r.unwrap() as nat == trailer_hint(compressed@).unwrap(),
        r is Err ==> r.unwrap_err() == FrameParseError::TruncatedTrailer,
{
    let n = compressed.len();
    if n < 4 {
        Err(FrameParseError::TruncatedTrailer)
    } else {
        Ok(read_le_u32(compressed, n - 4))
    }
}

/// Decompress a gzip stream, pre-sizing the output buffer with the capacity
/// its trailer declares. Succeeds exactly on streams long enough to carry a
/// trailer and valid as gzip, and then returns what the stream inflates to.
pub fn decompress_default(input: &[u8]) -> (r: Result<Vec<u8>, CodecError>)
    ensures
        r is Ok <==> (input@.len() >= 4 && gzip_inflate(input@) is Some),
        r is Ok ==> r->Ok_0@ == gzip_inflate(input@)->Some_0,
        input@.len() < 4 && r is Err ==> r->Err_0 == CodecError::Frame(
            FrameParseError::TruncatedTrailer,
        ),
        input@.len() >= 4 && r is Err ==> r->Err_0 == CodecError::Operation(Phase::Decompress),
{
    let hint = match trailer_size_hint(input) {
        Ok(h) => h,
        Err(e) => {
            return Err(CodecError::Frame(e));
        },
    };
    // A best-effort hint: cap the reservation so a hostile trailer cannot
    // ask for more than the allocator could ever grant.
    let max_capacity: usize = usize::MAX / 2;
    let capacity: usize = hint as usize;
    let capacity: usize = if capacity > max_capacity {
        max_capacity
    } else {
        capacity
    };
    crate::decomp::gzip_read_to_end(input, capacity)
}

} // verus!
