//! Error taxonomy of the harness.
//!
//! A failing compress or decompress call is fatal to the whole run: timing
//! measurements must reflect first-attempt reality, so nothing is retried and
//! no partial result is kept. A malformed frame during pre-sizing is fatal to
//! the measurement of the (codec, input) pair that triggered it.

use vstd::prelude::*;

verus! {

/// The two measured phases of a benchmark.
#[derive(Clone, Copy, PartialEq, Eq, Structural, Debug)]
pub enum Phase {
    Compress,
    Decompress,
}

/// A malformed or truncated binary frame header or trailer, found while
/// extracting the declared decompressed size ahead of decompression.
#[derive(Clone, Copy, PartialEq, Eq, Structural, Debug)]
pub enum FrameParseError {
    /// The stream is too short to hold the frame header descriptor byte.
    MissingDescriptor,
    /// The content-size field would extend past the end of the stream.
    TruncatedSizeField,
    /// The stream is too short to hold the four-byte size trailer.
    TruncatedTrailer,
}

/// A fatal condition while benchmarking one (codec, input) pair.
#[derive(Clone, Copy, PartialEq, Eq, Structural, Debug)]
pub enum CodecError {
    /// A compress or decompress call of the codec under test failed.
    Operation(Phase),
    /// The compressed stream did not carry a well-formed frame header or
    /// trailer, so no pre-sizing hint could be extracted.
    Frame(FrameParseError),
}

/// A fatal condition of a whole benchmark run, identifying the codec and the
/// corpus item whose measurement failed.
#[derive(Clone, Copy, PartialEq, Eq, Structural, Debug)]
pub struct BenchError {
    /// Index of the failing codec, in registration order.
    pub codec_idx: usize,
    /// Index of the failing corpus item, in corpus order.
    pub input_idx: usize,
    /// What went wrong for that pair.
    pub error: CodecError,
}

} // verus!
