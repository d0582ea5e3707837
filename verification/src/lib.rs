//! Benchmark harness for interchangeable compression codecs.
//!
//! The library measures compression and decompression latency of several
//! codec families over a fixed corpus of byte inputs, reduces the samples of
//! each phase to a median, and collects the results into one ordered series
//! per codec. A verified binary frame parser extracts the declared
//! decompressed size from a compressed stream (zstd-style header or
//! trailer convention) so that decompression buffers can be pre-sized.

pub mod bencher;
pub mod bfunc;
pub mod comp;
pub mod decomp;
pub mod error;
pub mod graph;
pub mod utils;
pub mod zstd_dict;
pub mod zstd_impl;
