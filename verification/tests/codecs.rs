//! The codec adapters against the real compression crates: round trips,
//! framing claims, and the timing engine and orchestrator on top of them.

use compbench::bencher::Bencher;
use compbench::bfunc::Bfunc;
use compbench::comp;
use compbench::decomp;
use compbench::error::{CodecError, Phase};
use compbench::utils::{decompress_default, trailer_size_hint};
use compbench::zstd_dict::train;
use compbench::zstd_impl::{compress_to_zstd, decompress_from_zstd, parse_zstd_frame_hint};

fn corpus_item() -> Vec<u8> {
    // Compressible but not trivial: repeated phrases with a counter mixed in.
    let mut data = Vec::new();
    for i in 0..2000u32 {
        data.extend_from_slice(b"the quick brown fox jumps over the lazy dog ");
        data.extend_from_slice(&i.to_le_bytes());
    }
    data
}

#[test]
fn gzip_round_trip() {
    let data = corpus_item();
    let codec = Bfunc::new("gzip-5", comp::gzip(5), decomp::gzip());
    let back = codec.round_trip(&data).unwrap();
    assert_eq!(back, data);
}

#[test]
fn gzip_compression_changes_the_bytes() {
    let data = corpus_item();
    let compressed = comp::gzip(5).compress(&data).unwrap();
    assert_ne!(compressed, data);
    assert!(compressed.len() < data.len());
    assert_eq!(decompress_default(&compressed).unwrap(), data);
}

#[test]
fn gzip_trailer_declares_input_length() {
    let data = corpus_item();
    let compressed = comp::gzip(5).compress(&data).unwrap();
    assert_eq!(trailer_size_hint(&compressed), Ok(data.len() as u32));
}

#[test]
fn par_gzip_round_trip() {
    let data = corpus_item();
    let codec = Bfunc::new("par-gzip-9", comp::par_gzip(9), decomp::gzip());
    let back = codec.round_trip(&data).unwrap();
    assert_eq!(back, data);
}

#[test]
fn par_gzip_trailer_declares_input_length() {
    let data = corpus_item();
    let compressed = comp::par_gzip(9).compress(&data).unwrap();
    assert_eq!(trailer_size_hint(&compressed), Ok(data.len() as u32));
}

#[test]
fn brotli_round_trip() {
    let data = corpus_item();
    let codec = Bfunc::new("brotli-2-4096-24", comp::brotli(2, 4096, 24), decomp::brotli());
    let back = codec.round_trip(&data).unwrap();
    assert_eq!(back, data);
}

#[test]
fn zstd_round_trip() {
    let data = corpus_item();
    let codec = Bfunc::new("zstd-3", comp::zstd(3), decomp::zstd());
    let back = codec.round_trip(&data).unwrap();
    assert_eq!(back, data);
}

#[test]
fn par_zstd_round_trip() {
    let data = corpus_item();
    let codec = Bfunc::new("par-zstd-9", comp::par_zstd(9, 2), decomp::zstd());
    let back = codec.round_trip(&data).unwrap();
    assert_eq!(back, data);
}

#[test]
fn par_zstd_opt_round_trip() {
    let data = corpus_item();
    let codec = Bfunc::new("par-zstd-9-opt", comp::par_zstd_opt(2), decomp::zstd_opt());
    let back = codec.round_trip(&data).unwrap();
    assert_eq!(back, data);
}

#[test]
fn pledged_zstd_frame_declares_decompressed_size() {
    // compress_to_zstd pledges the input size, so the frame header must
    // declare exactly the decompressed length.
    let data = corpus_item();
    let compressed = compress_to_zstd(&data, 2).unwrap();
    assert_eq!(parse_zstd_frame_hint(&compressed), Ok(data.len() as u64));
    assert_eq!(decompress_from_zstd(&compressed).unwrap(), data);
}

#[test]
fn zstd_decompress_rejects_garbage_after_valid_header() {
    // The header walk succeeds, so the failure is the decoder's, not a frame
    // parse error.
    let mut frame = vec![0x28, 0xb5, 0x2f, 0xfd, 0x80, 0x00];
    frame.extend_from_slice(&1000u32.to_le_bytes());
    frame.extend_from_slice(&[0xde, 0xad, 0xbe, 0xef]);
    assert_eq!(
        decompress_from_zstd(&frame),
        Err(CodecError::Operation(Phase::Decompress))
    );
}

#[test]
fn bench_counts_sizes_and_medians() {
    let data = corpus_item();
    let codec = Bfunc::new("zstd-1", comp::zstd(1), decomp::zstd());
    let result = codec.bench(&data, 3).unwrap();
    assert_eq!(result.decompressed_bytes, data.len());
    assert!(result.compressed_bytes > 0);
    assert_eq!(result.compress_samples.len(), 3);
    assert_eq!(result.decompress_samples.len(), 3);
    assert_eq!(
        result.median_compress_nanos,
        Bfunc::median(&result.compress_samples)
    );
    assert_eq!(
        result.median_decompress_nanos,
        Bfunc::median(&result.decompress_samples)
    );
}

#[test]
fn orchestrator_yields_one_series_per_codec_in_corpus_order() {
    let inputs = vec![vec![1u8; 100], vec![2u8; 2000], vec![3u8; 300]];
    let functions = vec![
        Bfunc::new("zstd-1", comp::zstd(1), decomp::zstd()),
        Bfunc::new("gzip-1", comp::gzip(1), decomp::gzip()),
    ];
    let bencher = Bencher::new(functions, inputs);
    let series = bencher.run(4).unwrap();

    assert_eq!(series.len(), 2);
    assert_eq!(series[0].title, "zstd-1");
    assert_eq!(series[1].title, "gzip-1");
    assert_eq!(series[0].color, (0x00, 0xff, 0xff));
    assert_eq!(series[1].color, (0x65, 0x37, 0x00));
    for s in &series {
        assert_eq!(s.results.len(), 3);
        assert_eq!(s.results[0].decompressed_bytes, 100);
        assert_eq!(s.results[1].decompressed_bytes, 2000);
        assert_eq!(s.results[2].decompressed_bytes, 300);
        for r in &s.results {
            assert_eq!(r.compress_samples.len(), 4);
            assert_eq!(r.decompress_samples.len(), 4);
        }
    }
}

#[test]
fn dict_training_is_deterministic_and_rejects_nothing_twice() {
    // No samples at all: the trainer has nothing to work with.
    assert_eq!(train(Some(1024), &vec![]), None);

    // Whatever the trainer makes of a sample set, it makes the same thing
    // of it again: training depends on the samples and the cap alone. And a
    // trained dictionary never exceeds the size cap.
    let samples: Vec<Vec<u8>> = (0..64u8).map(|i| corpus_item_with_seed(i)).collect();
    let first = train(None, &samples);
    let second = train(None, &samples);
    assert_eq!(first, second);
    if let Some(dict) = &first {
        assert!(dict.len() <= 2097152);
    }
    if let Some(dict) = train(Some(4096), &samples) {
        assert!(dict.len() <= 4096);
    }
}

fn corpus_item_with_seed(seed: u8) -> Vec<u8> {
    let mut data = Vec::new();
    for i in 0..50u32 {
        data.extend_from_slice(b"sample text for dictionary training ");
        data.push(seed);
        data.extend_from_slice(&i.to_le_bytes());
    }
    data
}
