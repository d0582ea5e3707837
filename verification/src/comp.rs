//! Compression side of the codec adapters.
//!
//! A compressor's configuration — level, buffer size, window size, worker
//! count — is bound at construction, never per call, and a call leaves no
//! residual state behind: repeated calls on the same input are equivalent.
//! Codecs may parallelize internally; the call returns only after that work
//! is synchronized, so its wall-clock time covers all of it.

use vstd::prelude::*;
use std::io::Write;
use crate::decomp::{brotli_inflate, gzip_inflate, inflate, zstd_inflate, DecompFunc, Family};
use crate::error::{CodecError, Phase};
use crate::utils::le_bytes;
use crate::zstd_impl::zstd_frame_hint;

verus! {

/// Relies on flate2's `GzEncoder` at levels 0 through 9: the output is a
/// gzip stream that inflates back to the input — a 10-byte header, deflate
/// data, and an 8-byte trailer whose last four bytes hold the input length
/// modulo 2^32, little endian.
#[verifier::external_body]
pub(crate) fn gzip_write(data: &[u8], level: u32) -> (r: Result<Vec<u8>, CodecError>)
    requires
        level <= 9,
    ensures
        r is Ok ==> gzip_inflate(r->Ok_0@) == Some(data@),
        r is Ok ==> r->Ok_0@.len() >= 18,
        r is Ok ==> le_bytes(r->Ok_0@.subrange(r->Ok_0@.len() - 4, r->Ok_0@.len() as int))
            == data@.len() % 0x100000000,
        r is Err ==> r->Err_0 == CodecError::Operation(Phase::Compress),
{
    let mut encoder = flate2::write::GzEncoder::new(
        Vec::<u8>::new(),
        flate2::Compression::new(level),
    );
    if encoder.write_all(data).is_err() {
        return Err(CodecError::Operation(Phase::Compress));
    }
    match encoder.finish() {
        Ok(v) => Ok(v),
        Err(_) => Err(CodecError::Operation(Phase::Compress)),
    }
}

/// Relies on gzp's `ParCompress` over its gzip format: the output is a gzip
/// stream that inflates back to the input — the same 10-byte header and
/// 8-byte trailer as the serial encoder, with the input length modulo 2^32 in
/// the last four bytes. Compression of chunks runs on worker threads that
/// `finish` joins before returning the written buffer.
#[verifier::external_body]
pub(crate) fn par_gzip_write(data: &[u8], level: u32) -> (r: Result<Vec<u8>, CodecError>)
    requires
        level <= 9,
    ensures
        r is Ok ==> gzip_inflate(r->Ok_0@) == Some(data@),
        r is Ok ==> r->Ok_0@.len() >= 18,
        r is Ok ==> le_bytes(r->Ok_0@.subrange(r->Ok_0@.len() - 4, r->Ok_0@.len() as int))
            == data@.len() % 0x100000000,
        r is Err ==> r->Err_0 == CodecError::Operation(Phase::Compress),
{
    let mut encoder: gzp::par::compress::ParCompress<gzp::deflate::Gzip, Vec<u8>> =
        gzp::par::compress::ParCompressBuilder::new()
            .compression_level(gzp::Compression::new(level))
            .from_writer(Vec::new());
    if encoder.write_all(data).is_err() {
        return Err(CodecError::Operation(Phase::Compress));
    }
    match gzp::ZWriter::finish(&mut encoder) {
        Ok(v) => Ok(v),
        Err(_) => Err(CodecError::Operation(Phase::Compress)),
    }
}

/// Relies on brotli's `CompressorWriter` at qualities 0 through 11 and log
/// window sizes 10 through 24: dropping the writer completes the stream, and
/// the output inflates back to the input.
#[verifier::external_body]
pub(crate) fn brotli_write(data: &[u8], level: u32, buffer_size: usize, window_size: u32) -> (r:
    Result<Vec<u8>, CodecError>)
    requires
        level <= 11,
        10 <= window_size <= 24,
        buffer_size >= 1,
    ensures
        r is Ok ==> brotli_inflate(r->Ok_0@) == Some(data@),
        r is Err ==> r->Err_0 == CodecError::Operation(Phase::Compress),
{
    let mut compressed: Vec<u8> = Vec::new();
    let mut encoder = brotli::CompressorWriter::new(
        &mut compressed,
        buffer_size,
        level,
        window_size,
    );
    if encoder.write_all(data).is_err() {
        return Err(CodecError::Operation(Phase::Compress));
    }
    drop(encoder);
    Ok(compressed)
}

/// Relies on zstd's streaming `Encoder` at levels 0 through 22: the output is
/// one complete zstd frame — magic number and frame header included, so the
/// header walk finds what it needs — that inflates back to the input.
#[verifier::external_body]
pub(crate) fn zstd_write(data: &[u8], level: i32) -> (r: Result<Vec<u8>, CodecError>)
    requires
        0 <= level <= 22,
    ensures
        r is Ok ==> zstd_inflate(r->Ok_0@) == Some(data@),
        r is Ok ==> zstd_frame_hint(r->Ok_0@) is Some,
        r is Err ==> r->Err_0 == CodecError::Operation(Phase::Compress),
{
    let mut encoder = match zstd::stream::write::Encoder::new(Vec::<u8>::new(), level) {
        Ok(e) => e,
        Err(_) => return Err(CodecError::Operation(Phase::Compress)),
    };
    if encoder.write_all(data).is_err() {
        return Err(CodecError::Operation(Phase::Compress));
    }
    match encoder.finish() {
        Ok(v) => Ok(v),
        Err(_) => Err(CodecError::Operation(Phase::Compress)),
    }
}

/// Relies on zstd's streaming `Encoder` with worker threads enabled: the
/// workers only parallelize the work and are synchronized before `finish`
/// returns, so the output is still one complete zstd frame that inflates back
/// to the input.
#[verifier::external_body]
pub(crate) fn zstd_write_mt(data: &[u8], level: i32, num_workers: u32) -> (r: Result<
    Vec<u8>,
    CodecError,
>)
    requires
        0 <= level <= 22,
    ensures
        r is Ok ==> zstd_inflate(r->Ok_0@) == Some(data@),
        r is Ok ==> zstd_frame_hint(r->Ok_0@) is Some,
        r is Err ==> r->Err_0 == CodecError::Operation(Phase::Compress),
{
    let mut encoder = match zstd::stream::write::Encoder::new(Vec::<u8>::new(), level) {
        Ok(e) => e,
        Err(_) => return Err(CodecError::Operation(Phase::Compress)),
    };
    if encoder.multithread(num_workers).is_err() || encoder.write_all(data).is_err() {
        return Err(CodecError::Operation(Phase::Compress));
    }
    match encoder.finish() {
        Ok(v) => Ok(v),
        Err(_) => Err(CodecError::Operation(Phase::Compress)),
    }
}

/// A compression operation with its configuration bound at construction.
#[derive(Clone, Copy, PartialEq, Eq, Structural, Debug)]
#[allow(inconsistent_fields)]
pub enum CompFunc {
    /// Serial gzip at the given level.
    Gzip { level: u32 },
    /// Brotli at the given quality, internal buffer size and log window size.
    Brotli { level: u32, buffer_size: usize, window_size: u32 },
    /// Serial zstd at the given level.
    Zstd { level: i32 },
    /// Multithreaded zstd at the given level with the given worker count.
    ParZstd { level: i32, num_workers: u32 },
    /// Parallel gzip at the given level.
    ParGzip { level: u32 },
    /// Multithreaded zstd at a fixed level that also pledges the input size,
    /// so the frame header declares the decompressed size for pre-sizing.
    ParZstdOpt { num_workers: u32 },
}

/// A serial gzip compressor.
pub fn gzip(level: u32) -> (r: CompFunc)
    requires
        level <= 9,
    ensures
        r == (CompFunc::Gzip { level }),
{
    CompFunc::Gzip { level }
}

/// A brotli compressor.
pub fn brotli(level: u32, buffer_size: usize, window_size: u32) -> (r: CompFunc)
    requires
        level <= 11,
        10 <= window_size <= 24,
        buffer_size >= 1,
    ensures
        r == (CompFunc::Brotli { level, buffer_size, window_size }),
{
    CompFunc::Brotli { level, buffer_size, window_size }
}

/// A serial zstd compressor.
pub fn zstd(level: i32) -> (r: CompFunc)
    requires
        0 <= level <= 22,
    ensures
        r == (CompFunc::Zstd { level }),
{
    CompFunc::Zstd { level }
}

/// A multithreaded zstd compressor.
pub fn par_zstd(level: i32, num_workers: u32) -> (r: CompFunc)
    requires
        0 <= level <= 22,
    ensures
        r == (CompFunc::ParZstd { level, num_workers }),
{
    CompFunc::ParZstd { level, num_workers }
}

/// A parallel gzip compressor.
pub fn par_gzip(level: u32) -> (r: CompFunc)
    requires
        level <= 9,
    ensures
        r == (CompFunc::ParGzip { level }),
{
    CompFunc::ParGzip { level }
}

/// The multithreaded zstd compressor that pledges the input size, so its
/// frames declare their decompressed size. The worker count is a
/// configuration value; callers typically pass the machine's available
/// parallelism.
pub fn par_zstd_opt(num_workers: u32) -> (r: CompFunc)
    ensures
        r == (CompFunc::ParZstdOpt { num_workers }),
{
    CompFunc::ParZstdOpt { num_workers }
}

impl CompFunc {
    /// The configuration ranges the underlying encoders accept.
    pub open spec fn wf(&self) -> bool {
        match *self {
            CompFunc::Gzip { level } => level <= 9,
            CompFunc::Brotli { level, buffer_size, window_size } => level <= 11 && 10
                <= window_size <= 24 && buffer_size >= 1,
            CompFunc::Zstd { level } => 0 <= level <= 22,
            CompFunc::ParZstd { level, num_workers } => 0 <= level <= 22,
            CompFunc::ParGzip { level } => level <= 9,
            CompFunc::ParZstdOpt { num_workers } => true,
        }
    }

    /// Which codec family this compressor produces.
    pub open spec fn family(&self) -> Family {
        match *self {
            CompFunc::Gzip { .. } => Family::Gzip,
            CompFunc::Brotli { .. } => Family::Brotli,
            CompFunc::Zstd { .. } => Family::Zstd,
            CompFunc::ParZstd { .. } => Family::Zstd,
            CompFunc::ParGzip { .. } => Family::Gzip,
            CompFunc::ParZstdOpt { .. } => Family::Zstd,
        }
    }

    /// Run one compress call. On success the output inflates back to the
    /// input under this codec's family, and carries the framing that the
    /// family's pre-sizing walk reads: gzip streams end in the four-byte
    /// little-endian length trailer, zstd streams start with a parseable
    /// frame header — one that, for the size-pledging codec and an input of
    /// 256 bytes or more, declares exactly the input's length.
    pub fn compress(&self, data: &[u8]) -> (r: Result<Vec<u8>, CodecError>)
        requires
            self.wf(),
        ensures
            r is Ok ==> inflate(self.family(), r->Ok_0@) == Some(data@),
            r is Ok && self.family() == Family::Gzip ==> r->Ok_0@.len() >= 18 && le_bytes(
                r->Ok_0@.subrange(r->Ok_0@.len() - 4, r->Ok_0@.len() as int),
            ) == data@.len() % 0x100000000,
            r is Ok && self.family() == Family::Zstd ==> zstd_frame_hint(r->Ok_0@) is Some,
            r is Ok && self is ParZstdOpt && data@.len() >= 256 ==> zstd_frame_hint(r->Ok_0@)
                == Some(data@.len()),
            r is Err ==> r->Err_0 == CodecError::Operation(Phase::Compress),
    {
        match self {
            CompFunc::Gzip { level } => gzip_write(data, *level),
            CompFunc::Brotli { level, buffer_size, window_size } => brotli_write(
                data,
                *level,
                *buffer_size,
                *window_size,
            ),
            CompFunc::Zstd { level } => zstd_write(data, *level),
            CompFunc::ParZstd { level, num_workers } => zstd_write_mt(data, *level, *num_workers),
            CompFunc::ParGzip { level } => par_gzip_write(data, *level),
            CompFunc::ParZstdOpt { num_workers } => crate::zstd_impl::compress_to_zstd(
                data,
                *num_workers,
            ),
        }
    }

    /// Whether this compressor and a decompressor form one codec: they work
    /// on the same family of streams. Every successful compress call then
    /// produces a stream the decompressor accepts.
    pub open spec fn compatible(&self, d: DecompFunc) -> bool {
        self.family() == d.family()
    }
}

} // verus!
