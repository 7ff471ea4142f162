//! Walking a whole container buffer: locating the sequence-parameters
//! record and patching it in place.

use vstd::prelude::*;

use crate::error::StreamError;
use crate::ivf::{is_av01, is_ivf, le32, parse_ivf_frame, parse_ivf_header};
use crate::obu::{
    lemma_parse_ok_layout, parse_obu_header, parse_sequence_params, spec_parse_obu_header,
    spec_parse_seq_params, SequenceParams, OBU_SEQUENCE_HEADER,
};
use crate::level::Level;
use crate::patch::{
    lemma_level_field_is_bits, level_bit_offset, patch_record, patched_same_layout,
    patched_tier_inserted, patched_tier_removed, spec_level_field,
};
use crate::bits::seq_bit;

verus! {

/// Where the first sequence-parameters record of a stream sits: its decoded
/// leading fields, the byte offset of its payload, and the payload's byte
/// length.
#[derive(Clone, Copy, Debug, PartialEq, Eq)]
pub struct SequenceLocation {
    pub params: SequenceParams,
    pub payload_offset: usize,
    pub payload_size: u32,
}

/// The walk from the frame at byte `off` onward: each frame is a 12-byte
/// header carrying the coded size, followed by that many payload bytes.  A
/// buffer that ends before any sequence-parameters unit yields
/// `HeaderOrderViolation`; a frame that overruns the buffer is malformed.
pub open spec fn spec_scan_frames(s: Seq<u8>, off: int) -> Result<SequenceLocation, StreamError>
    decreases (if s.len() - off + 1 > 0 {
        s.len() - off + 1
    } else {
        0int
    }), 0int,
{
    if off < 0 || off >= s.len() {
        Err(StreamError::HeaderOrderViolation)
    } else if off + 12 > s.len() {
        Err(StreamError::MalformedStream)
    } else {
        let size = le32(s, off);
        if size > s.len() - off - 12 {
            Err(StreamError::MalformedStream)
        } else {
            spec_scan_units(s, off + 12, size, off + 12 + size)
        }
    }
}

/// The walk over the units of one frame: `sz_left` bytes of the frame
/// remain at byte `p`, and the next frame starts at `frame_end`.  A unit
/// header that cannot be decoded or that overruns the frame is malformed;
/// the first sequence-parameters unit ends the walk with its decoded
/// fields or its own decode error; an exhausted frame hands over to the
/// next one.
pub open spec fn spec_scan_units(s: Seq<u8>, p: int, sz_left: int, frame_end: int) -> Result<
    SequenceLocation,
    StreamError,
>
    decreases (if s.len() - frame_end + 1 > 0 {
        s.len() - frame_end + 1
    } else {
        0int
    }), (if sz_left > 0 {
        sz_left
    } else {
        0int
    }) + 1,
{
    if sz_left <= 0 {
        spec_scan_frames(s, frame_end)
    } else {
        match spec_parse_obu_header(s, p, sz_left) {
            None => Err(StreamError::MalformedStream),
            Some(h) => {
                if h.header_len == 0 || h.header_len > sz_left || h.obu_size > sz_left
                    - h.header_len {
                    Err(StreamError::MalformedStream)
                } else if h.obu_type == OBU_SEQUENCE_HEADER {
                    match spec_parse_seq_params(
                        s.subrange(p + h.header_len, p + h.header_len + h.obu_size),
                    ) {
                        Ok(params) => Ok(
                            SequenceLocation {
                                params,
                                payload_offset: (p + h.header_len) as usize,
                                payload_size: h.obu_size,
                            },
                        ),
                        Err(e) => Err(e),
                    }
                } else {
                    spec_scan_units(
                        s,
                        p + h.header_len + h.obu_size,
                        sz_left - h.header_len - h.obu_size,
                        frame_end,
                    )
                }
            },
        }
    }
}

/// What scanning a whole container buffer for its first
/// sequence-parameters unit yields: the functional model of
/// `find_sequence_params`.  The 32-byte file header is checked first, then
/// the frames are walked.
pub open spec fn spec_scan(s: Seq<u8>) -> Result<SequenceLocation, StreamError> {
    if s.len() < 32 {
        Err(StreamError::MalformedStream)
    } else if !is_ivf(s) {
        Err(StreamError::UnsupportedContainerFormat)
    } else if !is_av01(s) {
        Err(StreamError::UnsupportedCodec)
    } else {
        spec_scan_frames(s, 32)
    }
}

/// Copy `count` bytes starting at `start` into a fresh buffer.
fn extract_range(data: &Vec<u8>, start: usize, count: usize) -> (r: Vec<u8>)
    requires
        start + count <= data.len(),
    ensures
        r@ == data@.subrange(start as int, start + count),
{
    let mut out: Vec<u8> = Vec::new();
    let mut i: usize = 0;
    proof {
        assert(out@ =~= data@.subrange(start as int, start as int));
    }
    while i < count
        invariant
            start + count <= data.len(),
            i <= count,
            out@ == data@.subrange(start as int, start + i),
        decreases count - i,
    {
        out.push(data[start + i]);
        proof {
            assert(out@ =~= data@.subrange(start as int, start + i + 1));
        }
        i = i + 1;
    }
    out
}

/// Write `bytes` back over the buffer starting at `start`.
fn write_range(data: &mut Vec<u8>, start: usize, bytes: &Vec<u8>)
    requires
        start + bytes.len() <= old(data).len(),
    ensures
        final(data)@.len() == old(data)@.len(),
        final(data)@.subrange(start as int, start + bytes@.len()) == bytes@,
        forall|i: int|
            0 <= i < old(data)@.len() && !(start <= i < start + bytes@.len())
                ==> final(data)@[i] == old(data)@[i],
{
    let mut i: usize = 0;
    while i < bytes.len()
        invariant
            start + bytes.len() <= data.len(),
            i <= bytes@.len(),
            data@.len() == old(data)@.len(),
            forall|j: int| 0 <= j < i ==> data@[start + j] == bytes@[j],
            forall|j: int|
                0 <= j < old(data)@.len() && !(start <= j < start + i) ==> data@[j] == old(
                    data,
                )@[j],
        decreases bytes@.len() - i,
    {
        data.set(start + i, bytes[i]);
        i = i + 1;
    }
    proof {
        assert(data@.subrange(start as int, start + bytes@.len()) =~= bytes@);
    }
}

/// Walk the container's frames and the units inside them until the first
/// sequence-parameters unit, and decode its leading fields.
///
/// The result is exactly what `spec_scan` yields on the buffer: the first
/// sequence-parameters unit's decoded fields and location, or the error of
/// the first thing that stops the walk.  On success the location
/// designates the unit's payload, and the decoded fields are exactly what
/// `parse_sequence_params` reads from those bytes.
pub fn find_sequence_params(data: &Vec<u8>) -> (r: Result<SequenceLocation, StreamError>)
    requires
        data.len() <= usize::MAX / 16,
    ensures
        r == spec_scan(data@),
        match r {
            Ok(loc) => {
                &&& loc.payload_offset + loc.payload_size <= data@.len()
                &&& spec_parse_seq_params(
                    data@.subrange(
                        loc.payload_offset as int,
                        loc.payload_offset + loc.payload_size,
                    ),
                ) == Ok::<SequenceParams, StreamError>(loc.params)
                &&& loc.params.seq_level_idx < 32
                &&& loc.params.operating_points_cnt >= 1
                &&& !loc.params.timing_info_present
            },
            Err(_) => true,
        },
{
    if let Err(e) = parse_ivf_header(data) {
        return Err(e);
    }
    let mut off: usize = 32;
    while off < data.len()
        invariant
            data.len() <= usize::MAX / 16,
            32 <= off,
            spec_scan(data@) == spec_scan_frames(data@, off as int),
        decreases data@.len() - off,
    {
        let frame = match parse_ivf_frame(data, off) {
            Ok(f) => f,
            Err(e) => {
                return Err(e);
            },
        };
        // The frame's payload must lie inside the buffer and the walk must
        // move forward.
        if frame.size as usize > data.len() - off - 12 {
            return Err(StreamError::MalformedStream);
        }
        let frame_end: usize = off + 12 + frame.size as usize;
        let mut p: usize = off + 12;
        let mut sz_left: u32 = frame.size;
        while sz_left > 0
            invariant
                data.len() <= usize::MAX / 16,
                p + sz_left == frame_end,
                frame_end <= data@.len(),
                spec_scan(data@) == spec_scan_units(
                    data@,
                    p as int,
                    sz_left as int,
                    frame_end as int,
                ),
            decreases sz_left,
        {
            let obu = match parse_obu_header(data, p, sz_left) {
                Ok(o) => o,
                Err(e) => {
                    return Err(e);
                },
            };
            if obu.header_len == 0 || obu.header_len > sz_left || obu.obu_size > sz_left
                - obu.header_len {
                return Err(StreamError::MalformedStream);
            }
            let payload_offset = p + obu.header_len as usize;
            if obu.obu_type == OBU_SEQUENCE_HEADER {
                let payload = extract_range(data, payload_offset, obu.obu_size as usize);
                let params = match parse_sequence_params(&payload) {
                    Ok(sp) => sp,
                    Err(e) => {
                        return Err(e);
                    },
                };
                return Ok(
                    SequenceLocation {
                        params,
                        payload_offset,
                        payload_size: obu.obu_size,
                    },
                );
            }
            p = payload_offset + obu.obu_size as usize;
            sz_left = sz_left - obu.header_len - obu.obu_size;
        }
        off = frame_end;
    }
    // The stream ended without sequence parameters.
    Err(StreamError::HeaderOrderViolation)
}

/// Rewrite the level field of the sequence-parameters record inside a whole
/// stream buffer: the record bytes are patched as `patch_record` states,
/// and no byte outside the record changes.
pub fn patch_in_buffer(
    data: &mut Vec<u8>,
    payload_offset: usize,
    payload_size: u32,
    level_offset: usize,
    expected: u8,
    new_idx: u8,
) -> (r: Result<(), StreamError>)
    requires
        expected < 32,
        new_idx < 32,
        payload_offset + payload_size <= old(data).len(),
        old(data).len() <= usize::MAX / 16,
        level_offset + 6 <= payload_size * 8,
    ensures
        final(data)@.len() == old(data)@.len(),
        forall|i: int|
            0 <= i < old(data)@.len() && !(payload_offset <= i < payload_offset + payload_size)
                ==> final(data)@[i] == old(data)@[i],
        ({
            let old_rec = old(data)@.subrange(
                payload_offset as int,
                payload_offset + payload_size,
            );
            let new_rec = final(data)@.subrange(
                payload_offset as int,
                payload_offset + payload_size,
            );
            match r {
                Ok(_) => {
                    &&& spec_level_field(old_rec, level_offset as int) == expected
                    &&& if (expected > 7) == (new_idx > 7) {
                        patched_same_layout(old_rec, new_rec, level_offset as int, new_idx)
                    } else if expected > 7 {
                        patched_tier_removed(old_rec, new_rec, level_offset as int, new_idx)
                    } else {
                        patched_tier_inserted(old_rec, new_rec, level_offset as int, new_idx)
                    }
                },
                Err(e) => {
                    &&& new_rec == old_rec
                    &&& (e == StreamError::ConsistencyCheckFailure || e
                        == StreamError::InvalidTierTransition)
                    &&& (e == StreamError::ConsistencyCheckFailure <==> spec_level_field(
                        old_rec,
                        level_offset as int,
                    ) != expected)
                    &&& (e == StreamError::InvalidTierTransition <==> spec_level_field(
                        old_rec,
                        level_offset as int,
                    ) == expected && expected > 7 && new_idx <= 7 && seq_bit(
                        old_rec,
                        level_offset + 5,
                    ) == true)
                },
            }
        }),
        r is Ok <==> spec_level_field(
            old(data)@.subrange(payload_offset as int, payload_offset + payload_size),
            level_offset as int,
        ) == expected && !(expected > 7 && new_idx <= 7 && seq_bit(
            old(data)@.subrange(payload_offset as int, payload_offset + payload_size),
            level_offset + 5,
        ) == true),
{
    let mut record = extract_range(data, payload_offset, payload_size as usize);
    let outcome = patch_record(&mut record, level_offset, expected, new_idx);
    match outcome {
        Ok(_) => {
            write_range(data, payload_offset, &record);
            proof {
                assert(final(data)@.subrange(
                    payload_offset as int,
                    payload_offset + payload_size,
                ) =~= record@);
            }
            Ok(())
        },
        Err(e) => {
            proof {
                assert(final(data)@.subrange(
                    payload_offset as int,
                    payload_offset + payload_size,
                ) =~= record@);
            }
            Err(e)
        },
    }
}

/// Rewrite a stream's declared level in place to a forced choice.
///
/// Locates the sequence-parameters record, derives the level field's bit
/// offset from the record's own layout, and patches the field.  Success is
/// owed whenever the scan reaches a decodable record that declares exactly
/// one operating point and the rewrite is not a forbidden tier removal: the
/// level previously declared, the record's location and the field's offset
/// come back, the record holds the forced level exactly as `patch_record`
/// states, and no byte outside the record has changed.  Otherwise the
/// buffer is untouched and the error is pinned to its cause: the scan's own
/// error, `UnsupportedFeature` for more than one operating point, or
/// `InvalidTierTransition` for a removal of a set tier bit.  (A record that
/// decodes at all always matches its own parsed level, so a consistency
/// failure cannot arise here.)
pub fn apply_forced_level(data: &mut Vec<u8>, new_idx: u8) -> (r: Result<
    (Level, SequenceLocation, usize),
    StreamError,
>)
    requires
        new_idx < 32,
        old(data).len() <= usize::MAX / 16,
    ensures
        final(data)@.len() == old(data)@.len(),
        match r {
            Ok((old_level, loc, off)) => {
                let old_rec = old(data)@.subrange(
                    loc.payload_offset as int,
                    loc.payload_offset + loc.payload_size,
                );
                let new_rec = final(data)@.subrange(
                    loc.payload_offset as int,
                    loc.payload_offset + loc.payload_size,
                );
                &&& spec_scan(old(data)@) == Ok::<SequenceLocation, StreamError>(loc)
                &&& loc.params.operating_points_cnt == 1
                &&& !loc.params.timing_info_present
                &&& old_level.wf()
                &&& old_level.index == loc.params.seq_level_idx
                &&& off == if loc.params.reduced_still_picture_header {
                    5int
                } else {
                    24int
                }
                &&& loc.payload_offset + loc.payload_size <= old(data)@.len()
                &&& spec_parse_seq_params(old_rec) == Ok::<SequenceParams, StreamError>(loc.params)
                &&& forall|i: int|
                    0 <= i < old(data)@.len() && !(loc.payload_offset <= i < loc.payload_offset
                        + loc.payload_size) ==> final(data)@[i] == old(data)@[i]
                &&& spec_level_field(old_rec, off as int) == old_level.index
                &&& !(old_level.index > 7 && new_idx <= 7 && seq_bit(old_rec, off + 5) == true)
                &&& if (old_level.index > 7) == (new_idx > 7) {
                    patched_same_layout(old_rec, new_rec, off as int, new_idx)
                } else if old_level.index > 7 {
                    patched_tier_removed(old_rec, new_rec, off as int, new_idx)
                } else {
                    patched_tier_inserted(old_rec, new_rec, off as int, new_idx)
                }
            },
            Err(e) => {
                &&& final(data)@ == old(data)@
                &&& match spec_scan(old(data)@) {
                    Err(se) => e == se,
                    Ok(loc0) => {
                        let off0: int = if loc0.params.reduced_still_picture_header {
                            5int
                        } else {
                            24int
                        };
                        let rec = old(data)@.subrange(
                            loc0.payload_offset as int,
                            loc0.payload_offset + loc0.payload_size,
                        );
                        if loc0.params.operating_points_cnt != 1 {
                            e == StreamError::UnsupportedFeature
                        } else {
                            &&& e == StreamError::InvalidTierTransition
                            &&& loc0.params.seq_level_idx > 7
                            &&& new_idx <= 7
                            &&& seq_bit(rec, off0 + 5) == true
                        }
                    },
                }
            },
        },
{
    let loc = match find_sequence_params(data) {
        Ok(l) => l,
        Err(e) => {
            return Err(e);
        },
    };
    let off = match level_bit_offset(
        loc.params.reduced_still_picture_header,
        loc.params.timing_info_present,
        loc.params.operating_points_cnt,
    ) {
        Ok(o) => o,
        Err(e) => {
            return Err(e);
        },
    };
    proof {
        let rec = data@.subrange(loc.payload_offset as int, loc.payload_offset + loc.payload_size);
        lemma_parse_ok_layout(rec);
        lemma_level_field_is_bits(rec, off as int);
    }
    let old_level = Level::new(loc.params.seq_level_idx);
    let outcome = patch_in_buffer(
        data,
        loc.payload_offset,
        loc.payload_size,
        off,
        loc.params.seq_level_idx,
        new_idx,
    );
    match outcome {
        Ok(_) => Ok((old_level, loc, off)),
        Err(e) => {
            proof {
                assert forall|i: int| 0 <= i < old(data)@.len() implies data@[i] == old(
                    data,
                )@[i] by {
                    if loc.payload_offset <= i < loc.payload_offset + loc.payload_size {
                        let j = i - loc.payload_offset;
                        assert(data@.subrange(
                            loc.payload_offset as int,
                            loc.payload_offset + loc.payload_size,
                        )[j] == old(data)@.subrange(
                            loc.payload_offset as int,
                            loc.payload_offset + loc.payload_size,
                        )[j]);
                    }
                }
                assert(data@ =~= old(data)@);
            }
            Err(e)
        },
    }
}

} // verus!
