//! The zstd frame-header convention and the zstd codec built on it.
//!
//! A zstd frame starts with a four-byte magic number; the byte at offset 4 is
//! the Frame_Header_Descriptor. Its top two bits are the
//! Frame_Content_Size_flag, bit 5 is the Single_Segment_flag, and its low two
//! bits encode the size of the Dictionary_ID field. When the content-size
//! flag is nonzero, the frame declares its decompressed size in a
//! little-endian field whose width the flag selects; reading that field ahead
//! of decompression lets the output buffer be pre-sized, so the measured
//! decompression time reflects decode cost rather than reallocation.

use vstd::prelude::*;
use crate::error::{CodecError, FrameParseError, Phase};
use crate::utils::{le_bytes, read_le_u16, read_le_u32, read_le_u64};

verus! {

/// Size in bytes of the Dictionary_ID field, from its two-bit code: codes 0,
/// 1 and 2 mean that many bytes, code 3 means four bytes.
pub open spec fn did_field_size(code: u8) -> u8 {
    if code == 3 {
        4
    } else {
        code
    }
}

/// Start offset of the content-size field, from the frame header descriptor:
/// the magic number and descriptor take 5 bytes, the window descriptor one
/// more unless the single-segment flag suppresses it, and the dictionary id
/// comes in between.
pub open spec fn fcs_offset(d: u8) -> int {
    6 + did_field_size(d & 3) - ((d >> 5) & 1)
}

/// Width in bytes of the content-size field, from a nonzero content-size
/// flag.
pub open spec fn fcs_width(flag: u8) -> int {
    if flag == 1 {
        2
    } else if flag == 2 {
        4
    } else {
        8
    }
}

/// The pre-sizing hint a zstd frame declares. `None` means the stream is too
/// short to be a frame: either the descriptor byte itself or the declared
/// content-size field lies past the end. Content-size flag 0 declares
/// nothing; the size is unknown and the hint is zero capacity. Flag 1 stores
/// the size minus 256 in two bytes; flags 2 and 3 store it directly in four
/// and eight bytes.
pub open spec fn zstd_frame_hint(s: Seq<u8>) -> Option<nat> {
    if s.len() < 5 {
        None
    } else {
        let d = s[4];
        let flag = d >> 6;
        if flag == 0 {
            Some(0)
        } else {
            let off = fcs_offset(d);
            let w = fcs_width(flag);
            if off + w <= s.len() {
                let v = le_bytes(s.subrange(off, off + w));
                if flag == 1 {
                    Some((v + 256) as nat)
                } else {
                    Some(v)
                }
            } else {
                None
            }
        }
    }
}

/// Parse the declared decompressed size out of a zstd frame header.
/// Truncation anywhere the walk reads is a fatal parse error; a frame that
/// declares no size is not an error and yields a zero hint.
pub fn parse_zstd_frame_hint(compressed: &[u8]) -> (r: Result<u64, FrameParseError>)
    ensures
        r is Ok <==> zstd_frame_hint(compressed@) is Some,
        r is Ok ==> r->Ok_0 as nat == zstd_frame_hint(compressed@)->Some_0,
        compressed@.len() < 5 ==> r == Result::<u64, FrameParseError>::Err(
            FrameParseError::MissingDescriptor,
        ),
        compressed@.len() >= 5 && r is Err ==> r->Err_0 == FrameParseError::TruncatedSizeField,
{
    if compressed.len() < 5 {
        return Err(FrameParseError::MissingDescriptor);
    }
    let d = compressed[4];
    let flag = d >> 6;
    let sseg = (d >> 5) & 1;
    let did_code = d & 3;
    assert(d >> 6 <= 3 && (d >> 5) & 1 <= 1 && d & 3 <= 3) by (bit_vector);
    let did_size: usize = if did_code == 3 {
        4
    } else {
        did_code as usize
    };
    let off: usize = 6 + did_size - (sseg as usize);
    assert(off as int == fcs_offset(d));
    if flag == 0 {
        Ok(0)
    } else if flag == 1 {
        if off + 2 <= compressed.len() {
            let v = read_le_u16(compressed, off);
            Ok(256 + v as u64)
        } else {
            Err(FrameParseError::TruncatedSizeField)
        }
    } else if flag == 2 {
        if off + 4 <= compressed.len() {
            let v = read_le_u32(compressed, off);
            Ok(v as u64)
        } else {
            Err(FrameParseError::TruncatedSizeField)
        }
    } else {
        if off + 8 <= compressed.len() {
            let v = read_le_u64(compressed, off);
            Ok(v)
        } else {
            Err(FrameParseError::TruncatedSizeField)
        }
    }
}

/// Decompress a zstd stream, pre-sizing the output buffer with the capacity
/// the frame header declares (saturated to the machine's address range).
/// A header the walk cannot read is fatal; a frame that declares no size is
/// decompressed into an initially empty buffer.
pub fn decompress_from_zstd(compressed: &[u8]) -> (r: Result<Vec<u8>, CodecError>)
    ensures
        r is Ok <==> (zstd_frame_hint(compressed@) is Some && crate::decomp::zstd_inflate(
            compressed@,
        ) is Some),
        r is Ok ==> r->Ok_0@ == crate::decomp::zstd_inflate(compressed@)->Some_0,
        r is Err && compressed@.len() < 5 ==> r->Err_0 == CodecError::Frame(
            FrameParseError::MissingDescriptor,
        ),
        r is Err && compressed@.len() >= 5 && zstd_frame_hint(compressed@) is None ==> r->Err_0
            == CodecError::Frame(FrameParseError::TruncatedSizeField),
        r is Err && zstd_frame_hint(compressed@) is Some ==> r->Err_0 == CodecError::Operation(
            Phase::Decompress,
        ),
{
    let hint = match parse_zstd_frame_hint(compressed) {
        Ok(h) => h,
        Err(e) => {
            return Err(CodecError::Frame(e));
        },
    };
    // A best-effort hint: cap the reservation so a hostile header cannot
    // ask for more than the allocator could ever grant.
    let max_capacity: usize = usize::MAX / 2;
    let capacity: usize = if hint > (max_capacity as u64) {
        max_capacity
    } else {
        hint as usize
    };
    crate::decomp::zstd_read_to_end(compressed, capacity)
}

/// Relies on zstd's streaming `Encoder` with a pledged source size, the
/// content-size flag on and worker threads enabled: the output is one
/// complete zstd frame that declares its decompressed size in the header and
/// inflates back to the input; the workers are synchronized before `finish`
/// returns. For inputs of 256 bytes or more the declared size is exactly the
/// input's length; below that the encoder may use the single-segment
/// one-byte field, which this crate's convention reads as size unknown.
#[verifier::external_body]
pub(crate) fn zstd_write_pledged(data: &[u8], level: i32, num_workers: u32) -> (r: Result<
    Vec<u8>,
    CodecError,
>)
    requires
        0 <= level <= 22,
    ensures
        r is Ok ==> crate::decomp::zstd_inflate(r->Ok_0@) == Some(data@),
        r is Ok ==> zstd_frame_hint(r->Ok_0@) is Some,
        r is Ok && data@.len() >= 256 ==> zstd_frame_hint(r->Ok_0@) == Some(data@.len()),
        r is Err ==> r->Err_0 == CodecError::Operation(Phase::Compress),
{
    let mut encoder = match zstd::stream::write::Encoder::new(Vec::<u8>::new(), level) {
        Ok(e) => e,
        Err(_) => return Err(CodecError::Operation(Phase::Compress)),
    };
    if encoder.set_pledged_src_size(Some(data.len() as u64)).is_err()
        || encoder.include_contentsize(true).is_err()
        || encoder.multithread(num_workers).is_err()
        || std::io::Write::write_all(&mut encoder, data).is_err()
    {
        return Err(CodecError::Operation(Phase::Compress));
    }
    match encoder.finish() {
        Ok(v) => Ok(v),
        Err(_) => Err(CodecError::Operation(Phase::Compress)),
    }
}

/// Compress with zstd at the fixed optimized level, pledging the input size
/// so that the produced frame header declares the decompressed size — the
/// hint `decompress_from_zstd` later pre-sizes with. For inputs of 256 bytes
/// or more the declared size is exactly the input's length.
pub fn compress_to_zstd(to_compress: &[u8], num_workers: u32) -> (r: Result<Vec<u8>, CodecError>)
    ensures
        r is Ok ==> crate::decomp::zstd_inflate(r->Ok_0@) == Some(to_compress@),
        r is Ok ==> zstd_frame_hint(r->Ok_0@) is Some,
        r is Ok && to_compress@.len() >= 256 ==> zstd_frame_hint(r->Ok_0@) == Some(
            to_compress@.len(),
        ),
        r is Err ==> r->Err_0 == CodecError::Operation(Phase::Compress),
{
    zstd_write_pledged(to_compress, 9, num_workers)
}

} // verus!
