//! The binary frame parser: zstd header convention and trailer convention.

use compbench::error::{CodecError, FrameParseError, Phase};
use compbench::utils::{decompress_default, trailer_size_hint};
use compbench::zstd_impl::parse_zstd_frame_hint;

#[test]
fn header_flag2_four_byte_field() {
    // Descriptor 0x80: content-size flag 2, no single segment, no dict id.
    // The field starts at offset 6 and holds 1048576 little-endian.
    let mut frame = vec![0x28, 0xb5, 0x2f, 0xfd, 0x80, 0x00];
    frame.extend_from_slice(&1048576u32.to_le_bytes());
    assert_eq!(parse_zstd_frame_hint(&frame), Ok(1048576));
}

#[test]
fn header_flag0_yields_zero_hint_without_error() {
    // Descriptor 0x00: no declared size; the hint is zero capacity, not an
    // error.
    let frame = vec![0x28, 0xb5, 0x2f, 0xfd, 0x00];
    assert_eq!(parse_zstd_frame_hint(&frame), Ok(0));
}

#[test]
fn header_flag1_adds_256_to_two_byte_field() {
    // Descriptor 0x40: flag 1, two-byte field at offset 6 holding 258.
    let mut frame = vec![0x28, 0xb5, 0x2f, 0xfd, 0x40, 0x00];
    frame.extend_from_slice(&258u16.to_le_bytes());
    assert_eq!(parse_zstd_frame_hint(&frame), Ok(256 + 258));
}

#[test]
fn header_flag3_eight_byte_field() {
    let mut frame = vec![0x28, 0xb5, 0x2f, 0xfd, 0xc0, 0x00];
    frame.extend_from_slice(&0x1_0000_0001u64.to_le_bytes());
    assert_eq!(parse_zstd_frame_hint(&frame), Ok(0x1_0000_0001));
}

#[test]
fn header_single_segment_moves_field_forward() {
    // Descriptor 0xa0: flag 2 with the single-segment flag set, so no window
    // descriptor byte: the field starts at offset 5.
    let mut frame = vec![0x28, 0xb5, 0x2f, 0xfd, 0xa0];
    frame.extend_from_slice(&777u32.to_le_bytes());
    assert_eq!(parse_zstd_frame_hint(&frame), Ok(777));
}

#[test]
fn header_dictionary_id_moves_field_back() {
    // Descriptor 0x83: flag 2 with dictionary-id code 3, a four-byte id, so
    // the field starts at offset 10.
    let mut frame = vec![0x28, 0xb5, 0x2f, 0xfd, 0x83, 0x00, 0x01, 0x02, 0x03, 0x04];
    frame.extend_from_slice(&99u32.to_le_bytes());
    assert_eq!(parse_zstd_frame_hint(&frame), Ok(99));
}

#[test]
fn header_too_short_for_descriptor() {
    assert_eq!(
        parse_zstd_frame_hint(&[0x28, 0xb5, 0x2f, 0xfd]),
        Err(FrameParseError::MissingDescriptor)
    );
}

#[test]
fn header_truncated_size_field() {
    // Flag 2 wants four bytes at offset 6 but only two are there.
    let frame = vec![0x28, 0xb5, 0x2f, 0xfd, 0x80, 0x00, 0x01, 0x02];
    assert_eq!(
        parse_zstd_frame_hint(&frame),
        Err(FrameParseError::TruncatedSizeField)
    );
}

#[test]
fn trailer_decodes_last_four_bytes() {
    let mut buffer = vec![9, 9, 9, 9, 9];
    buffer.extend_from_slice(&500000u32.to_le_bytes());
    assert_eq!(trailer_size_hint(&buffer), Ok(500000));
}

#[test]
fn trailer_exactly_four_bytes() {
    assert_eq!(trailer_size_hint(&[1, 0, 0, 0]), Ok(1));
}

#[test]
fn trailer_too_short() {
    assert_eq!(
        trailer_size_hint(&[1, 2, 3]),
        Err(FrameParseError::TruncatedTrailer)
    );
}

#[test]
fn gzip_decompress_rejects_short_input() {
    assert_eq!(
        decompress_default(&[1, 2, 3]),
        Err(CodecError::Frame(FrameParseError::TruncatedTrailer))
    );
}

#[test]
fn gzip_decompress_rejects_invalid_stream() {
    // Long enough for the trailer walk, but not gzip at all.
    assert_eq!(
        decompress_default(&[0, 0, 0, 0, 0, 0, 0, 0]),
        Err(CodecError::Operation(Phase::Decompress))
    );
}
