use av1_level::error::StreamError;
use av1_level::patch::{level_bit_offset, patch_record, read_level_field};

// A minimal sequence-parameters record with a reduced still-picture header:
// profile 0, still_picture 0, reduced 1, level `lvl` at bit offset 5, then
// 1-bit frame dimension fields coding a 2x2 picture.
fn reduced_record(lvl: u8) -> Vec<u8> {
    let mut rec = vec![0b0000_1000u8, 0u8, 0b0011_0000u8];
    rec[0] |= lvl >> 2;
    rec[1] |= (lvl & 0b11) << 6;
    rec
}

#[test]
fn level_field_round_trips_through_read() {
    for lvl in 0..32u8 {
        let rec = reduced_record(lvl);
        assert_eq!(read_level_field(&rec, 5), lvl);
    }
}

#[test]
fn forcing_level_one_touches_only_the_level_bits() {
    // The record's level/tier region starts at bit offset 5 and holds
    // 0b00000 for level 0; forcing level 1 must set that field to 0b00001
    // and leave the neighbouring bits untouched.
    let mut rec = reduced_record(0);
    let original = rec.clone();
    patch_record(&mut rec, 5, 0, 1).unwrap();
    assert_eq!(read_level_field(&rec, 5), 1);
    // Bits before the field (byte 0 outside its low 3 bits holds them).
    assert_eq!(rec[0] & 0b1111_1000, original[0] & 0b1111_1000);
    // The low bits after the field are unchanged.
    assert_eq!(rec[1] & 0b0011_1111, original[1] & 0b0011_1111);
    assert_eq!(rec[2], original[2]);
}

#[test]
fn patch_round_trip_below_boundary() {
    let original = reduced_record(0);
    let mut rec = original.clone();
    patch_record(&mut rec, 5, 0, 1).unwrap();
    patch_record(&mut rec, 5, 1, 0).unwrap();
    assert_eq!(rec, original);
}

#[test]
fn patch_round_trip_above_boundary() {
    let original = reduced_record(8);
    let mut rec = original.clone();
    patch_record(&mut rec, 5, 8, 9).unwrap();
    assert_eq!(read_level_field(&rec, 5), 9);
    patch_record(&mut rec, 5, 9, 8).unwrap();
    assert_eq!(rec, original);
}

#[test]
fn tier_insert_then_remove_is_exact_when_last_bit_is_zero() {
    // The record's final bit is 0, so the bit the insertion shifts out is
    // the one the removal fills back in.
    let original = reduced_record(1);
    assert_eq!(original[2] & 1, 0);
    let mut rec = original.clone();
    patch_record(&mut rec, 5, 1, 9).unwrap();
    assert_eq!(read_level_field(&rec, 5), 9);
    patch_record(&mut rec, 5, 9, 1).unwrap();
    assert_eq!(rec, original);
}

#[test]
fn tier_insert_then_remove_loses_a_final_one_bit() {
    // With a final bit of 1, the insertion drops it and the removal fills
    // in a zero: the round trip diverges in exactly that bit — the
    // documented loss of in-place patching.
    let mut original = reduced_record(1);
    original[2] |= 1;
    let mut rec = original.clone();
    patch_record(&mut rec, 5, 1, 9).unwrap();
    patch_record(&mut rec, 5, 9, 1).unwrap();
    assert_eq!(rec[0], original[0]);
    assert_eq!(rec[1], original[1]);
    assert_eq!(rec[2], original[2] & 0b1111_1110);
    assert_ne!(rec, original);
}

#[test]
fn mismatched_level_is_a_consistency_failure() {
    let mut rec = reduced_record(0);
    let before = rec.clone();
    let r = patch_record(&mut rec, 5, 3, 1);
    assert_eq!(r, Err(StreamError::ConsistencyCheckFailure));
    assert_eq!(rec, before);
}

#[test]
fn removing_a_high_tier_bit_is_rejected() {
    // Level 9 with the tier bit (bit offset 10) set to High.
    let mut rec = reduced_record(9);
    rec[1] |= 0b0010_0000;
    let before = rec.clone();
    let r = patch_record(&mut rec, 5, 9, 1);
    assert_eq!(r, Err(StreamError::InvalidTierTransition));
    assert_eq!(rec, before);
}

#[test]
fn level_offsets_per_header_layout() {
    assert_eq!(level_bit_offset(true, false, 1), Ok(5));
    assert_eq!(level_bit_offset(false, false, 1), Ok(24));
}

#[test]
fn multiple_operating_points_are_unsupported() {
    assert_eq!(level_bit_offset(false, false, 2), Err(StreamError::UnsupportedFeature));
    assert_eq!(level_bit_offset(true, false, 0), Err(StreamError::UnsupportedFeature));
}

#[test]
fn extended_timing_is_unsupported() {
    assert_eq!(level_bit_offset(false, true, 1), Err(StreamError::UnsupportedFeature));
}
