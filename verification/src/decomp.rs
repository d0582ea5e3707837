//! Decompression side of the codec adapters.
//!
//! Each decompressor fully materializes its output, so the measured cost
//! includes building the whole decompressed buffer; the caller discards the
//! bytes. Decoding is deterministic: what a compressed stream inflates to —
//! or that it is rejected — depends on the stream's bytes alone, which is
//! what the uninterpreted `*_inflate` functions stand for.

use vstd::prelude::*;
use std::io::Read;
use crate::error::{CodecError, FrameParseError, Phase};

verus! {

/// The codec families under test. A compressor and a decompressor of the
/// same family form one codec: the family ties each compressed stream to the
/// decoder that understands it.
#[derive(Clone, Copy, PartialEq, Eq, Structural, Debug)]
pub enum Family {
    Gzip,
    Brotli,
    Zstd,
}

/// What a gzip stream inflates to: the concatenated decompression of its
/// members, or nothing if the stream is not valid gzip. Stands for the result
/// of reading flate2's `MultiGzDecoder` to the end.
pub uninterp spec fn gzip_inflate(s: Seq<u8>) -> Option<Seq<u8>>;

/// What a brotli stream inflates to, or nothing if the stream is not valid
/// brotli. Stands for the result of reading brotli's `Decompressor` to the
/// end.
pub uninterp spec fn brotli_inflate(s: Seq<u8>) -> Option<Seq<u8>>;

/// What a zstd stream inflates to, or nothing if the stream is not valid
/// zstd. Stands for the result of reading zstd's streaming `Decoder` to the
/// end.
pub uninterp spec fn zstd_inflate(s: Seq<u8>) -> Option<Seq<u8>>;

/// The family's decompression, as one function.
pub open spec fn inflate(f: Family, s: Seq<u8>) -> Option<Seq<u8>> {
    match f {
        Family::Gzip => gzip_inflate(s),
        Family::Brotli => brotli_inflate(s),
        Family::Zstd => zstd_inflate(s),
    }
}

/// Relies on flate2's `MultiGzDecoder`: reading it to the end decompresses
/// every gzip member of the stream into a buffer with the given starting
/// capacity, failing exactly when the stream is not valid gzip; the outcome
/// depends on the compressed bytes alone. The capacity bound keeps the
/// buffer reservation inside the allocator's limit.
#[verifier::external_body]
pub(crate) fn gzip_read_to_end(data: &[u8], capacity: usize) -> (r: Result<Vec<u8>, CodecError>)
    requires
        capacity <= usize::MAX / 2,
    ensures
        r is Ok <==> gzip_inflate(data@) is Some,
        r is Ok ==> r->Ok_0@ == gzip_inflate(data@)->Some_0,
        r is Err ==> r->Err_0 == CodecError::Operation(Phase::Decompress),
{
    let mut bytes: Vec<u8> = Vec::with_capacity(capacity);
    let mut decoder = flate2::read::MultiGzDecoder::new(data);
    match decoder.read_to_end(&mut bytes) {
        Ok(_) => Ok(bytes),
        Err(_) => Err(CodecError::Operation(Phase::Decompress)),
    }
}

/// Relies on brotli's `Decompressor`: reading it to the end decompresses the
/// stream, failing exactly when the stream is not valid brotli. The internal
/// buffer size affects only chunking, never the outcome, which depends on the
/// compressed bytes alone.
#[verifier::external_body]
pub(crate) fn brotli_read_to_end(data: &[u8], buffer_size: usize) -> (r: Result<
    Vec<u8>,
    CodecError,
>)
    requires
        buffer_size >= 1,
    ensures
        r is Ok <==> brotli_inflate(data@) is Some,
        r is Ok ==> r->Ok_0@ == brotli_inflate(data@)->Some_0,
        r is Err ==> r->Err_0 == CodecError::Operation(Phase::Decompress),
{
    let mut bytes: Vec<u8> = Vec::new();
    let mut decoder = brotli::Decompressor::new(data, buffer_size);
    match decoder.read_to_end(&mut bytes) {
        Ok(_) => Ok(bytes),
        Err(_) => Err(CodecError::Operation(Phase::Decompress)),
    }
}

/// Relies on zstd's streaming `Decoder`: reading it to the end decompresses
/// the stream into a buffer with the given starting capacity, failing exactly
/// when the stream is not valid zstd; the outcome depends on the compressed
/// bytes alone. The capacity bound keeps the buffer reservation inside the
/// allocator's limit.
#[verifier::external_body]
pub(crate) fn zstd_read_to_end(data: &[u8], capacity: usize) -> (r: Result<Vec<u8>, CodecError>)
    requires
        capacity <= usize::MAX / 2,
    ensures
        r is Ok <==> zstd_inflate(data@) is Some,
        r is Ok ==> r->Ok_0@ == zstd_inflate(data@)->Some_0,
        r is Err ==> r->Err_0 == CodecError::Operation(Phase::Decompress),
{
    let mut bytes: Vec<u8> = Vec::with_capacity(capacity);
    let mut decoder = match zstd::stream::read::Decoder::new(data) {
        Ok(d) => d,
        Err(_) => return Err(CodecError::Operation(Phase::Decompress)),
    };
    match decoder.read_to_end(&mut bytes) {
        Ok(_) => Ok(bytes),
        Err(_) => Err(CodecError::Operation(Phase::Decompress)),
    }
}

/// A decompression operation with its configuration bound at construction.
#[derive(Clone, Copy, PartialEq, Eq, Structural, Debug)]
pub enum DecompFunc {
    /// gzip, pre-sizing the output buffer from the four-byte size trailer.
    Gzip,
    /// brotli with a fixed internal buffer.
    Brotli,
    /// zstd without pre-sizing.
    Zstd,
    /// zstd, pre-sizing the output buffer from the frame header.
    ZstdOpt,
}

/// A gzip decompressor with trailer pre-sizing.
pub fn gzip() -> (r: DecompFunc)
    ensures
        r == DecompFunc::Gzip,
{
    DecompFunc::Gzip
}

/// A brotli decompressor.
pub fn brotli() -> (r: DecompFunc)
    ensures
        r == DecompFunc::Brotli,
{
    DecompFunc::Brotli
}

/// A zstd decompressor without pre-sizing.
pub fn zstd() -> (r: DecompFunc)
    ensures
        r == DecompFunc::Zstd,
{
    DecompFunc::Zstd
}

/// A zstd decompressor that pre-sizes its output from the frame header.
pub fn zstd_opt() -> (r: DecompFunc)
    ensures
        r == DecompFunc::ZstdOpt,
{
    DecompFunc::ZstdOpt
}

impl DecompFunc {
    /// Which codec family this decompressor decodes.
    pub open spec fn family(&self) -> Family {
        match self {
            DecompFunc::Gzip => Family::Gzip,
            DecompFunc::Brotli => Family::Brotli,
            DecompFunc::Zstd => Family::Zstd,
            DecompFunc::ZstdOpt => Family::Zstd,
        }
    }

    /// The streams this decompressor decodes without error: valid streams of
    /// its family that also carry whatever framing its pre-sizing walk reads.
    pub open spec fn accepts(&self, s: Seq<u8>) -> bool {
        match self {
            DecompFunc::Gzip => s.len() >= 4 && gzip_inflate(s) is Some,
            DecompFunc::Brotli => brotli_inflate(s) is Some,
            DecompFunc::Zstd => zstd_inflate(s) is Some,
            DecompFunc::ZstdOpt => crate::zstd_impl::zstd_frame_hint(s) is Some && zstd_inflate(
                s,
            ) is Some,
        }
    }

    /// The error a rejected stream produces: a frame parse error when the
    /// pre-sizing walk runs out of bytes, a decompression failure otherwise.
    pub open spec fn rejection(&self, s: Seq<u8>) -> CodecError {
        match self {
            DecompFunc::Gzip => if s.len() < 4 {
                CodecError::Frame(FrameParseError::TruncatedTrailer)
            } else {
                CodecError::Operation(Phase::Decompress)
            },
            DecompFunc::Brotli => CodecError::Operation(Phase::Decompress),
            DecompFunc::Zstd => CodecError::Operation(Phase::Decompress),
            DecompFunc::ZstdOpt => if s.len() < 5 {
                CodecError::Frame(FrameParseError::MissingDescriptor)
            } else if crate::zstd_impl::zstd_frame_hint(s) is None {
                CodecError::Frame(FrameParseError::TruncatedSizeField)
            } else {
                CodecError::Operation(Phase::Decompress)
            },
        }
    }

    /// Decompress a stream, fully materializing the output. Succeeds exactly
    /// on the streams this configuration accepts, and then returns what the
    /// stream inflates to.
    pub fn decompress(&self, compressed: &[u8]) -> (r: Result<Vec<u8>, CodecError>)
        ensures
            r is Ok <==> self.accepts(compressed@),
            r is Ok ==> r->Ok_0@ == inflate(self.family(), compressed@)->Some_0,
            r is Err ==> r->Err_0 == self.rejection(compressed@),
    {
        match self {
            DecompFunc::Gzip => crate::utils::decompress_default(compressed),
            DecompFunc::Brotli => brotli_read_to_end(compressed, 4096),
            DecompFunc::Zstd => zstd_read_to_end(compressed, 0),
            DecompFunc::ZstdOpt => crate::zstd_impl::decompress_from_zstd(compressed),
        }
    }
}

} // verus!
