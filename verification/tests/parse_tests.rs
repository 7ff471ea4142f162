use av1_level::error::StreamError;
use av1_level::ivf::{parse_ivf_frame, parse_ivf_header};
use av1_level::obu::{
    parse_obu_header, parse_sequence_params, OBU_SEQUENCE_HEADER, OBU_TEMPORAL_DELIMITER,
};
use av1_level::stream::{apply_forced_level, find_sequence_params, patch_in_buffer};

fn ivf_file_header(width: u16, height: u16, framerate: u32, timescale: u32) -> Vec<u8> {
    let mut h = Vec::new();
    h.extend_from_slice(b"DKIF");
    h.extend_from_slice(&0u16.to_le_bytes());
    h.extend_from_slice(&32u16.to_le_bytes());
    h.extend_from_slice(b"AV01");
    h.extend_from_slice(&width.to_le_bytes());
    h.extend_from_slice(&height.to_le_bytes());
    h.extend_from_slice(&framerate.to_le_bytes());
    h.extend_from_slice(&timescale.to_le_bytes());
    h.extend_from_slice(&1u32.to_le_bytes());
    h.extend_from_slice(&0u32.to_le_bytes());
    h
}

#[test]
fn ivf_header_fields() {
    let data = ivf_file_header(640, 360, 30, 1);
    let h = parse_ivf_header(&data).unwrap();
    assert_eq!(h.width, 640);
    assert_eq!(h.height, 360);
    assert_eq!(h.framerate, 30);
    assert_eq!(h.timescale, 1);
    assert_eq!(h.num_frames, 1);
}

#[test]
fn ivf_header_too_short() {
    let data = vec![0u8; 31];
    assert_eq!(parse_ivf_header(&data), Err(StreamError::MalformedStream));
}

#[test]
fn ivf_header_wrong_magic() {
    let mut data = ivf_file_header(640, 360, 30, 1);
    data[0] = b'X';
    assert_eq!(parse_ivf_header(&data), Err(StreamError::UnsupportedContainerFormat));
}

#[test]
fn ivf_header_wrong_codec() {
    let mut data = ivf_file_header(640, 360, 30, 1);
    data[8..12].copy_from_slice(b"VP80");
    assert_eq!(parse_ivf_header(&data), Err(StreamError::UnsupportedCodec));
}

#[test]
fn ivf_frame_fields() {
    let mut data = Vec::new();
    data.extend_from_slice(&1234u32.to_le_bytes());
    data.extend_from_slice(&567890u64.to_le_bytes());
    let f = parse_ivf_frame(&data, 0).unwrap();
    assert_eq!(f.size, 1234);
    assert_eq!(f.pts, 567890);
    assert_eq!(parse_ivf_frame(&data, 1), Err(StreamError::MalformedStream));
}

#[test]
fn obu_header_with_size_field() {
    // Temporal delimiter: type 2, has_size set, zero-length payload.
    let data = vec![0b0_0010_0_1_0u8, 0x00];
    let h = parse_obu_header(&data, 0, 2).unwrap();
    assert_eq!(h.obu_type, OBU_TEMPORAL_DELIMITER);
    assert_eq!(h.header_len, 2);
    assert_eq!(h.obu_size, 0);
    assert!(!h.has_extension);
}

#[test]
fn obu_header_multibyte_size() {
    // Sequence header with a two-byte size field coding 132.
    let data = vec![0b0_0001_0_1_0u8, 0x84, 0x01];
    let h = parse_obu_header(&data, 0, 200).unwrap();
    assert_eq!(h.obu_type, OBU_SEQUENCE_HEADER);
    assert_eq!(h.header_len, 3);
    assert_eq!(h.obu_size, 132);
}

#[test]
fn obu_header_without_size_spans_the_rest() {
    let data = vec![0b0_0001_0_0_0u8, 0, 0, 0];
    let h = parse_obu_header(&data, 0, 4).unwrap();
    assert_eq!(h.header_len, 1);
    assert_eq!(h.obu_size, 3);
}

#[test]
fn obu_header_forbidden_bit_is_malformed() {
    let data = vec![0b1_0010_0_1_0u8, 0x00];
    assert_eq!(parse_obu_header(&data, 0, 2), Err(StreamError::MalformedStream));
}

#[test]
fn sequence_params_reduced_header() {
    // profile 0, still 0, reduced 1, level 0, 2x2 frame.
    let payload = vec![0b0000_1000u8, 0u8, 0b0011_0000u8];
    let p = parse_sequence_params(&payload).unwrap();
    assert_eq!(p.seq_profile, 0);
    assert!(p.reduced_still_picture_header);
    assert!(!p.timing_info_present);
    assert_eq!(p.operating_points_cnt, 1);
    assert_eq!(p.seq_level_idx, 0);
    assert!(!p.seq_tier);
    assert_eq!(p.max_frame_width, 2);
    assert_eq!(p.max_frame_height, 2);
}

#[test]
fn sequence_params_full_header() {
    // profile 0, not reduced, no timing info, one operating point with
    // level 8 and a Main tier bit, 2x2 frame.
    let payload = vec![0x00u8, 0x00, 0x00, 0x40, 0x03];
    let p = parse_sequence_params(&payload).unwrap();
    assert!(!p.reduced_still_picture_header);
    assert_eq!(p.operating_points_cnt, 1);
    assert_eq!(p.seq_level_idx, 8);
    assert!(!p.seq_tier);
    assert_eq!(p.max_frame_width, 2);
    assert_eq!(p.max_frame_height, 2);
}

#[test]
fn sequence_params_two_operating_points() {
    // Two operating points, both level 0; the count must come through for
    // the unsupported-feature rejection downstream.
    let payload = vec![0x00u8, 0x10, 0x00, 0x00, 0x00, 0x00, 0x03];
    let p = parse_sequence_params(&payload).unwrap();
    assert_eq!(p.operating_points_cnt, 2);
}

#[test]
fn sequence_params_timing_info_unsupported() {
    let payload = vec![0b0000_0100u8, 0x00, 0x00, 0x40, 0x03];
    assert_eq!(parse_sequence_params(&payload), Err(StreamError::UnsupportedFeature));
}

#[test]
fn sequence_params_short_payload_is_malformed() {
    let payload = vec![0b0000_1000u8];
    assert_eq!(parse_sequence_params(&payload), Err(StreamError::MalformedStream));
}

fn tiny_stream(level: u8) -> Vec<u8> {
    let mut data = ivf_file_header(2, 2, 30, 1);
    let mut seq_payload = vec![0b0000_1000u8, 0u8, 0b0011_0000u8];
    seq_payload[0] |= level >> 2;
    seq_payload[1] |= (level & 0b11) << 6;
    let mut frame = Vec::new();
    // A temporal delimiter, then the sequence header.
    frame.extend_from_slice(&[0b0_0010_0_1_0u8, 0x00]);
    frame.extend_from_slice(&[0b0_0001_0_1_0u8, 0x03]);
    frame.extend_from_slice(&seq_payload);
    data.extend_from_slice(&(frame.len() as u32).to_le_bytes());
    data.extend_from_slice(&0u64.to_le_bytes());
    data.extend_from_slice(&frame);
    data
}

#[test]
fn find_sequence_params_in_stream() {
    let data = tiny_stream(0);
    let loc = find_sequence_params(&data).unwrap();
    assert_eq!(loc.payload_offset, 32 + 12 + 2 + 2);
    assert_eq!(loc.payload_size, 3);
    assert_eq!(loc.params.seq_level_idx, 0);
    assert!(loc.params.reduced_still_picture_header);
}

#[test]
fn patch_stream_in_buffer() {
    let mut data = tiny_stream(0);
    let pristine = data.clone();
    let loc = find_sequence_params(&data).unwrap();
    patch_in_buffer(&mut data, loc.payload_offset, loc.payload_size, 5, 0, 1).unwrap();
    let reread = find_sequence_params(&data).unwrap();
    assert_eq!(reread.params.seq_level_idx, 1);
    // Every byte outside the record is untouched.
    assert_eq!(data[..loc.payload_offset], pristine[..loc.payload_offset]);
    assert_eq!(data.len(), pristine.len());
    // Patching back restores the original stream.
    patch_in_buffer(&mut data, loc.payload_offset, loc.payload_size, 5, 1, 0).unwrap();
    assert_eq!(data, pristine);
}

#[test]
fn forced_level_patches_the_whole_stream() {
    let mut data = tiny_stream(0);
    let pristine = data.clone();
    let (old_level, loc, off) = apply_forced_level(&mut data, 1).unwrap();
    assert_eq!(old_level.index, 0);
    assert_eq!(off, 5);
    assert_eq!(loc.payload_size, 3);
    assert_eq!(find_sequence_params(&data).unwrap().params.seq_level_idx, 1);
    // Patching back to the old level restores the stream byte for byte.
    apply_forced_level(&mut data, 0).unwrap();
    assert_eq!(data, pristine);
}

// An IVF stream whose single frame holds a temporal delimiter and then a
// sequence header with the given payload.
fn stream_with_seq_payload(seq_payload: &[u8]) -> Vec<u8> {
    let mut data = ivf_file_header(2, 2, 30, 1);
    let mut frame = Vec::new();
    frame.extend_from_slice(&[0b0_0010_0_1_0u8, 0x00]);
    frame.extend_from_slice(&[0b0_0001_0_1_0u8, seq_payload.len() as u8]);
    frame.extend_from_slice(seq_payload);
    data.extend_from_slice(&(frame.len() as u32).to_le_bytes());
    data.extend_from_slice(&0u64.to_le_bytes());
    data.extend_from_slice(&frame);
    data
}

#[test]
fn two_operating_points_fail_before_any_byte_is_patched() {
    // The sequence parameters declare two operating points: the run must
    // fail with UnsupportedFeature and leave the buffer untouched.
    let mut data = stream_with_seq_payload(&[0x00u8, 0x10, 0x00, 0x00, 0x00, 0x00, 0x03]);
    let pristine = data.clone();
    let r = apply_forced_level(&mut data, 1);
    assert_eq!(r.unwrap_err(), StreamError::UnsupportedFeature);
    assert_eq!(data, pristine);
}

#[test]
fn removing_a_set_tier_bit_fails_and_leaves_the_stream() {
    // A reduced still-picture record declaring level 9 whose bit after the
    // level field is set: lowering the level below the tier boundary would
    // have to discard that bit, which is rejected.
    let mut data = stream_with_seq_payload(&[0x0Au8, 0x60, 0x00, 0x00]);
    let pristine = data.clone();
    assert_eq!(
        find_sequence_params(&data).unwrap().params.seq_level_idx,
        9
    );
    let r = apply_forced_level(&mut data, 1);
    assert_eq!(r.unwrap_err(), StreamError::InvalidTierTransition);
    assert_eq!(data, pristine);
}

#[test]
fn stream_without_sequence_header_is_rejected() {
    let mut data = ivf_file_header(2, 2, 30, 1);
    let frame = [0b0_0010_0_1_0u8, 0x00];
    data.extend_from_slice(&(frame.len() as u32).to_le_bytes());
    data.extend_from_slice(&0u64.to_le_bytes());
    data.extend_from_slice(&frame);
    assert_eq!(find_sequence_params(&data), Err(StreamError::HeaderOrderViolation));
}
