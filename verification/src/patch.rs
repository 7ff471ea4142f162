//! The in-place level/tier patcher.
//!
//! The sequence-parameters record embeds a 5-bit level field and, only when
//! the active level index is above 7, a 1-bit tier field immediately after
//! it.  Rewriting the level may therefore insert or remove the tier bit,
//! shifting every following bit of the record by one position while the
//! record's byte length stays fixed.  An insertion necessarily drops the
//! final bit of the record; a removal fills the final bit with zero.

use vstd::prelude::*;

use crate::bits::{get_bit, lemma_bitwise_eq, seq_bit, set_bit};
use crate::error::StreamError;

verus! {

/// Bit offset of the level field within the sequence-parameters record:
/// 5 bits of leading fields under a reduced still-picture header, else the
/// 24 bits that precede the first operating point's level.
pub const LEVEL_OFFSET_REDUCED: usize = 5;

pub const LEVEL_OFFSET_FULL: usize = 24;

/// Where the level field sits inside the sequence-parameters record.
///
/// Streams with several operating points or with extended timing
/// information lay the field out differently; both are unsupported.
pub fn level_bit_offset(
    reduced_still_picture_header: bool,
    timing_info_present: bool,
    operating_points_cnt: u8,
) -> (r: Result<usize, StreamError>)
    ensures
        match r {
            Ok(off) => {
                &&& operating_points_cnt == 1
                &&& !timing_info_present
                &&& off == if reduced_still_picture_header {
                    LEVEL_OFFSET_REDUCED as int
                } else {
                    LEVEL_OFFSET_FULL as int
                }
            },
            Err(e) => {
                &&& e == StreamError::UnsupportedFeature
                &&& (operating_points_cnt != 1 || timing_info_present)
            },
        },
{
    if operating_points_cnt != 1 || timing_info_present {
        return Err(StreamError::UnsupportedFeature);
    }
    if reduced_still_picture_header {
        Ok(LEVEL_OFFSET_REDUCED)
    } else {
        Ok(LEVEL_OFFSET_FULL)
    }
}

/// The value of the 5-bit level field starting at bit `off`.
pub open spec fn spec_level_field(s: Seq<u8>, off: int) -> int {
    bit_weight(seq_bit(s, off)) * 16 + bit_weight(seq_bit(s, off + 1)) * 8 + bit_weight(
        seq_bit(s, off + 2),
    ) * 4 + bit_weight(seq_bit(s, off + 3)) * 2 + bit_weight(seq_bit(s, off + 4))
}

pub open spec fn bit_weight(b: bool) -> int {
    if b {
        1
    } else {
        0
    }
}

/// Read the 5-bit level field at bit offset `off`.
pub fn read_level_field(v: &Vec<u8>, off: usize) -> (r: u8)
    requires
        v@.len() <= usize::MAX / 8,
        off + 5 <= v@.len() * 8,
    ensures
        r == spec_level_field(v@, off as int),
        r < 32,
{
    let mut r: u8 = 0;
    if get_bit(v, off) {
        r = r + 16;
    }
    if get_bit(v, off + 1) {
        r = r + 8;
    }
    if get_bit(v, off + 2) {
        r = r + 4;
    }
    if get_bit(v, off + 3) {
        r = r + 2;
    }
    if get_bit(v, off + 4) {
        r = r + 1;
    }
    r
}

/// The level field is exactly the value of the 5 bits at its offset.
pub proof fn lemma_level_field_is_bits(s: Seq<u8>, off: int)
    ensures
        spec_level_field(s, off) == crate::bits::bits_val(s, off, 5),
{
    reveal_with_fuel(crate::bits::bits_val, 6);
}

/// Bit `k` (from the most significant end of the 5-bit field) of level `idx`.
spec fn level_idx_bit(idx: u8, k: int) -> bool {
    (idx >> ((4 - k) as u8)) & 1u8 == 1u8
}

proof fn lemma_level_idx_bits(idx: u8)
    by (bit_vector)
    requires
        idx < 32,
    ensures
        ((if (idx >> 4u8) & 1u8 == 1u8 {
            1int
        } else {
            0int
        }) * 16 + (if (idx >> 3u8) & 1u8 == 1u8 {
            1int
        } else {
            0int
        }) * 8 + (if (idx >> 2u8) & 1u8 == 1u8 {
            1int
        } else {
            0int
        }) * 4 + (if (idx >> 1u8) & 1u8 == 1u8 {
            1int
        } else {
            0int
        }) * 2 + (if (idx >> 0u8) & 1u8 == 1u8 {
            1int
        } else {
            0int
        })) == idx as int,
{
}

/// Write `idx` into the 5-bit level field at `off`, leaving every other bit
/// of the record unchanged.
fn write_level_field(v: &mut Vec<u8>, off: usize, idx: u8)
    requires
        old(v)@.len() <= usize::MAX / 8,
        off + 5 <= old(v)@.len() * 8,
        idx < 32,
    ensures
        final(v)@.len() == old(v)@.len(),
        spec_level_field(final(v)@, off as int) == idx,
        forall|j: int|
            0 <= j < old(v)@.len() * 8 && !(off <= j < off + 5) ==> seq_bit(final(v)@, j)
                == seq_bit(old(v)@, j),
{
    let mut k: usize = 0;
    while k < 5
        invariant
            v@.len() == old(v)@.len(),
            old(v)@.len() <= usize::MAX / 8,
            off + 5 <= old(v)@.len() * 8,
            idx < 32,
            k <= 5,
            forall|j: int|
                0 <= j < old(v)@.len() * 8 && !(off <= j < off + k) ==> seq_bit(v@, j) == seq_bit(
                    old(v)@,
                    j,
                ),
            forall|j: int|
                off <= j < off + k ==> seq_bit(v@, j) == level_idx_bit(idx, j - off),
        decreases 5 - k,
    {
        let shift: u8 = (4 - k) as u8;
        let bit = ((idx >> shift) & 1) == 1;
        set_bit(v, off + k, bit);
        k = k + 1;
    }
    proof {
        lemma_level_idx_bits(idx);
        assert(seq_bit(v@, off as int) == level_idx_bit(idx, 0));
        assert(seq_bit(v@, off + 1) == level_idx_bit(idx, 1));
        assert(seq_bit(v@, off + 2) == level_idx_bit(idx, 2));
        assert(seq_bit(v@, off + 3) == level_idx_bit(idx, 3));
        assert(seq_bit(v@, off + 4) == level_idx_bit(idx, 4));
    }
}

/// The level field was rewritten in place and no other bit moved.
pub open spec fn patched_same_layout(old_s: Seq<u8>, new_s: Seq<u8>, off: int, idx: u8) -> bool {
    &&& new_s.len() == old_s.len()
    &&& spec_level_field(new_s, off) == idx
    &&& forall|j: int|
        0 <= j < old_s.len() * 8 && !(off <= j < off + 5) ==> seq_bit(new_s, j) == seq_bit(old_s, j)
}

/// The level field was rewritten and the tier bit that followed it removed:
/// every bit after the old tier bit moved one position towards the front,
/// and the final bit of the record was filled with zero.
pub open spec fn patched_tier_removed(old_s: Seq<u8>, new_s: Seq<u8>, off: int, idx: u8) -> bool {
    &&& new_s.len() == old_s.len()
    &&& spec_level_field(new_s, off) == idx
    &&& forall|j: int| 0 <= j < off ==> seq_bit(new_s, j) == seq_bit(old_s, j)
    &&& forall|j: int|
        off + 5 <= j < old_s.len() * 8 - 1 ==> seq_bit(new_s, j) == seq_bit(old_s, j + 1)
    &&& seq_bit(new_s, old_s.len() * 8 - 1) == false
}

/// The level field was rewritten and a Main (zero) tier bit inserted after
/// it: every following bit moved one position towards the back, and the
/// final bit of the record was dropped.
pub open spec fn patched_tier_inserted(old_s: Seq<u8>, new_s: Seq<u8>, off: int, idx: u8) -> bool {
    &&& new_s.len() == old_s.len()
    &&& spec_level_field(new_s, off) == idx
    &&& forall|j: int| 0 <= j < off ==> seq_bit(new_s, j) == seq_bit(old_s, j)
    &&& seq_bit(new_s, off + 5) == false
    &&& forall|j: int|
        off + 6 <= j < old_s.len() * 8 ==> seq_bit(new_s, j) == seq_bit(old_s, j - 1)
}

/// Rewrite the level field of a sequence-parameters record in place.
///
/// `record` holds exactly the record's bytes; `off` is the bit offset of the
/// level field within it.  The field is first read back and checked against
/// `expected`, the previously parsed level: a mismatch means the computed
/// location is wrong and nothing is touched.  When the rewrite crosses the
/// 7-boundary the tier bit is removed (it must be Main) or inserted, and the
/// rest of the record is shifted by one bit within its fixed length.
pub fn patch_record(record: &mut Vec<u8>, off: usize, expected: u8, new_idx: u8) -> (r: Result<
    (),
    StreamError,
>)
    requires
        expected < 32,
        new_idx < 32,
        old(record)@.len() <= usize::MAX / 8,
        off + 6 <= old(record)@.len() * 8,
    ensures
        final(record)@.len() == old(record)@.len(),
        match r {
            Ok(_) => {
                &&& spec_level_field(old(record)@, off as int) == expected
                &&& if (expected > 7) == (new_idx > 7) {
                    patched_same_layout(old(record)@, final(record)@, off as int, new_idx)
                } else if expected > 7 {
                    &&& seq_bit(old(record)@, off + 5) == false
                    &&& patched_tier_removed(old(record)@, final(record)@, off as int, new_idx)
                } else {
                    patched_tier_inserted(old(record)@, final(record)@, off as int, new_idx)
                }
            },
            Err(e) => {
                &&& final(record)@ == old(record)@
                &&& (e == StreamError::ConsistencyCheckFailure || e
                    == StreamError::InvalidTierTransition)
                &&& (e == StreamError::ConsistencyCheckFailure <==> spec_level_field(
                    old(record)@,
                    off as int,
                ) != expected)
                &&& (e == StreamError::InvalidTierTransition <==> spec_level_field(
                    old(record)@,
                    off as int,
                ) == expected && expected > 7 && new_idx <= 7 && seq_bit(old(record)@, off + 5)
                    == true)
            },
        },
        r is Ok <==> spec_level_field(old(record)@, off as int) == expected && !(expected > 7
            && new_idx <= 7 && seq_bit(old(record)@, off + 5) == true),
{
    let ghost orig = record@;
    let n_bits: usize = record.len() * 8;
    let actual = read_level_field(record, off);
    if actual != expected {
        return Err(StreamError::ConsistencyCheckFailure);
    }
    if expected > 7 && new_idx <= 7 {
        // The tier bit is being removed; a declared High tier cannot be
        // silently discarded.
        if get_bit(record, off + 5) {
            return Err(StreamError::InvalidTierTransition);
        }
        // Shift everything after the tier bit one position forward.
        let mut i: usize = off + 5;
        while i < n_bits - 1
            invariant
                record@.len() == orig.len(),
                orig.len() <= usize::MAX / 8,
                n_bits == orig.len() * 8,
                off + 6 <= n_bits,
                off + 5 <= i <= n_bits - 1,
                forall|j: int| 0 <= j < off + 5 ==> seq_bit(record@, j) == seq_bit(orig, j),
                forall|j: int| off + 5 <= j < i ==> seq_bit(record@, j) == seq_bit(orig, j + 1),
                forall|j: int| i <= j < n_bits ==> seq_bit(record@, j) == seq_bit(orig, j),
            decreases n_bits - i,
        {
            let b = get_bit(record, i + 1);
            set_bit(record, i, b);
            i = i + 1;
        }
        set_bit(record, n_bits - 1, false);
    } else if expected <= 7 && new_idx > 7 {
        // A Main tier bit is being inserted; shift everything after the
        // level field one position back, dropping the record's final bit.
        let mut i: usize = n_bits;
        while i > off + 6
            invariant
                record@.len() == orig.len(),
                orig.len() <= usize::MAX / 8,
                n_bits == orig.len() * 8,
                off + 6 <= n_bits,
                off + 6 <= i <= n_bits,
                forall|j: int| 0 <= j < i ==> seq_bit(record@, j) == seq_bit(orig, j),
                forall|j: int| i <= j < n_bits ==> seq_bit(record@, j) == seq_bit(orig, j - 1),
            decreases i,
        {
            i = i - 1;
            let b = get_bit(record, i - 1);
            set_bit(record, i, b);
        }
        set_bit(record, off + 5, false);
    }
    write_level_field(record, off, new_idx);
    Ok(())
}

/// Rewriting the level field twice without a tier transition restores the
/// original record exactly: patching a record from level `a` to `b` and
/// back to `a`, where neither rewrite crosses the 7-boundary, reproduces
/// the original bytes.
pub proof fn lemma_patch_round_trip(s1: Seq<u8>, s2: Seq<u8>, s3: Seq<u8>, off: int, a: u8, b: u8)
    requires
        0 <= off,
        off + 5 <= s1.len() * 8,
        spec_level_field(s1, off) == a,
        patched_same_layout(s1, s2, off, b),
        patched_same_layout(s2, s3, off, a),
    ensures
        s3 == s1,
{
    assert forall|j: int| 0 <= j < s1.len() * 8 implies seq_bit(s3, j) == seq_bit(s1, j) by {
        if !(off <= j < off + 5) {
            assert(seq_bit(s2, j) == seq_bit(s1, j));
            assert(seq_bit(s3, j) == seq_bit(s2, j));
        } else {
            lemma_level_field_bits(s1, s3, off);
        }
    }
    lemma_bitwise_eq(s3, s1);
}

/// Two records with equal level fields agree on each of the field's bits.
proof fn lemma_level_field_bits(x: Seq<u8>, y: Seq<u8>, off: int)
    requires
        spec_level_field(x, off) == spec_level_field(y, off),
    ensures
        seq_bit(x, off) == seq_bit(y, off),
        seq_bit(x, off + 1) == seq_bit(y, off + 1),
        seq_bit(x, off + 2) == seq_bit(y, off + 2),
        seq_bit(x, off + 3) == seq_bit(y, off + 3),
        seq_bit(x, off + 4) == seq_bit(y, off + 4),
{
}

/// Inserting a tier bit and then removing it restores every bit of the
/// record except the last, which the insertion dropped and the removal
/// filled with zero.  When the record's final bit was zero to begin with,
/// the round trip is exact; when it was one, the records diverge in that
/// final bit alone — the documented loss of in-place patching.
pub proof fn lemma_tier_insert_remove(
    s1: Seq<u8>,
    s2: Seq<u8>,
    s3: Seq<u8>,
    off: int,
    a: u8,
    b: u8,
)
    requires
        0 <= off,
        off + 6 <= s1.len() * 8,
        spec_level_field(s1, off) == a,
        patched_tier_inserted(s1, s2, off, b),
        patched_tier_removed(s2, s3, off, a),
    ensures
        forall|j: int| 0 <= j < s1.len() * 8 - 1 ==> seq_bit(s3, j) == seq_bit(s1, j),
        seq_bit(s3, s1.len() * 8 - 1) == false,
        seq_bit(s1, s1.len() * 8 - 1) == false ==> s3 == s1,
{
    let n = s1.len() * 8;
    assert forall|j: int| 0 <= j < n - 1 implies seq_bit(s3, j) == seq_bit(s1, j) by {
        if j < off {
            assert(seq_bit(s3, j) == seq_bit(s2, j));
            assert(seq_bit(s2, j) == seq_bit(s1, j));
        } else if j < off + 5 {
            lemma_level_field_bits(s1, s3, off);
        } else {
            assert(seq_bit(s3, j) == seq_bit(s2, j + 1));
            assert(seq_bit(s2, j + 1) == seq_bit(s1, j));
        }
    }
    if seq_bit(s1, n - 1) == false {
        assert forall|j: int| 0 <= j < n implies seq_bit(s3, j) == seq_bit(s1, j) by {}
        lemma_bitwise_eq(s3, s1);
    }
}

} // verus!
