//! The elemental units of the coded stream.
//!
//! Each unit carries a one- or two-byte header (type, extension flag, size
//! flag) followed by an optional variable-length size field.  Of the unit
//! payloads, only the leading fields of the sequence parameters are decoded
//! here: profile, the still-picture flags, the first operating point's
//! level and tier, and the maximum frame dimensions — exactly what level
//! analysis and patching need.

use vstd::prelude::*;

use crate::bits::{bits_val, read_bits, seq_bit, get_bit};
use crate::error::StreamError;

verus! {

use vstd::arithmetic::power::pow;
use vstd::arithmetic::power::lemma_pow_increases;
use vstd::arithmetic::power2::{lemma2_to64, pow2};

pub const OBU_SEQUENCE_HEADER: u8 = 1;

pub const OBU_TEMPORAL_DELIMITER: u8 = 2;

pub const OBU_FRAME_HEADER: u8 = 3;

pub const OBU_TILE_GROUP: u8 = 4;

pub const OBU_METADATA: u8 = 5;

pub const OBU_FRAME: u8 = 6;

pub const OBU_REDUNDANT_FRAME_HEADER: u8 = 7;

pub const OBU_TILE_LIST: u8 = 8;

pub const OBU_PADDING: u8 = 15;

/// A unit's decoded header: its type, the bytes the header itself consumed,
/// and the byte size of the payload that follows.
#[derive(Clone, Copy, Debug, PartialEq, Eq, Structural)]
pub struct ObuHeader {
    pub obu_type: u8,
    pub has_extension: bool,
    pub header_len: u32,
    pub obu_size: u32,
}

/// A variable-length unsigned integer: seven value bits per byte, little
/// group first, the high bit of each byte flagging a continuation.  Yields
/// the value and the count of bytes consumed, or nothing when the field
/// runs past the buffer or the byte budget.
pub open spec fn spec_leb128(s: Seq<u8>, pos: int, budget: int) -> Option<(int, int)>
    decreases budget,
{
    if budget <= 0 || pos < 0 || pos >= s.len() {
        None
    } else {
        let b = s[pos];
        if b & 0x80 == 0 {
            Some(((b & 0x7f) as int, 1))
        } else {
            match spec_leb128(s, pos + 1, budget - 1) {
                None => None,
                Some((v, n)) => Some(((b & 0x7f) + v * 128, n + 1)),
            }
        }
    }
}

proof fn lemma_leb128_bound(s: Seq<u8>, pos: int, budget: int)
    requires
        0 <= budget <= 8,
    ensures
        spec_leb128(s, pos, budget) is Some ==> {
            let (v, n) = spec_leb128(s, pos, budget)->0;
            &&& 0 <= v < pow(128, budget as nat)
            &&& 1 <= n <= budget
        },
    decreases budget,
{
    reveal_with_fuel(pow, 2);
    if budget > 0 && 0 <= pos < s.len() {
        let b = s[pos];
        if b & 0x80 == 0 {
            assert((b & 0x7f) < 128) by (bit_vector);
            lemma_pow_increases(128, 1, budget as nat);
        } else {
            lemma_leb128_bound(s, pos + 1, budget - 1);
            if spec_leb128(s, pos + 1, budget - 1) is Some {
                let (v, n) = spec_leb128(s, pos + 1, budget - 1)->0;
                assert((b & 0x7f) < 128) by (bit_vector);
                assert(pow(128, budget as nat) == 128 * pow(128, (budget - 1) as nat));
                assert((b & 0x7f) + v * 128 < 128 * pow(128, (budget - 1) as nat))
                    by (nonlinear_arith)
                    requires
                        (b & 0x7f) < 128,
                        0 <= v < pow(128, (budget - 1) as nat),
                ;
            }
        }
    }
}

fn read_leb128(data: &Vec<u8>, pos: usize, budget: u8) -> (r: Option<(u64, u8)>)
    requires
        budget <= 8,
        pos <= data.len(),
    ensures
        match r {
            Some((v, n)) => spec_leb128(data@, pos as int, budget as int) == Some((
                v as int,
                n as int,
            )),
            None => spec_leb128(data@, pos as int, budget as int) is None,
        },
    decreases budget,
{
    if budget == 0 || pos >= data.len() {
        return None;
    }
    let b = data[pos];
    if b & 0x80 == 0 {
        Some(((b & 0x7f) as u64, 1))
    } else {
        match read_leb128(data, pos + 1, budget - 1) {
            None => None,
            Some((v, n)) => {
                proof {
                    lemma_leb128_bound(data@, pos + 1, budget - 1);
                    lemma_pow_increases(128, (budget - 1) as nat, 7);
                    reveal_with_fuel(pow, 9);
                    assert(pow(128, 7) == 0x2_0000_0000_0000);
                }
                Some(((b & 0x7f) as u64 + v * 128, n + 1))
            },
        }
    }
}

/// The decoded header of the unit starting at byte `pos`, with `remaining`
/// bytes of the enclosing container frame left; or nothing when the bytes
/// do not form a supported unit header (a set forbidden bit, a size field
/// that overruns the buffer or the 32-bit range, a header longer than the
/// remaining bytes).  A unit without a size field spans the rest of the
/// container frame.
pub open spec fn spec_parse_obu_header(s: Seq<u8>, pos: int, remaining: int) -> Option<ObuHeader> {
    if pos < 0 || remaining < 1 || pos >= s.len() {
        None
    } else {
        let b = s[pos];
        if b & 0x80 != 0 {
            None
        } else {
            let ext = (b >> 2) & 1 == 1;
            let has_size = (b >> 1) & 1 == 1;
            let hdr = if ext {
                2int
            } else {
                1int
            };
            if remaining < hdr || s.len() - pos < hdr {
                None
            } else if has_size {
                match spec_leb128(s, pos + hdr, 8) {
                    None => None,
                    Some((v, n)) => {
                        if v > u32::MAX || remaining < hdr + n {
                            None
                        } else {
                            Some(
                                ObuHeader {
                                    obu_type: (b >> 3) & 0x0f,
                                    has_extension: ext,
                                    header_len: (hdr + n) as u32,
                                    obu_size: v as u32,
                                },
                            )
                        }
                    },
                }
            } else {
                Some(
                    ObuHeader {
                        obu_type: (b >> 3) & 0x0f,
                        has_extension: ext,
                        header_len: hdr as u32,
                        obu_size: (remaining - hdr) as u32,
                    },
                )
            }
        }
    }
}

/// Decode the header of the unit starting at byte `pos`.
pub fn parse_obu_header(data: &Vec<u8>, pos: usize, remaining: u32) -> (r: Result<
    ObuHeader,
    StreamError,
>)
    ensures
        match r {
            Ok(h) => spec_parse_obu_header(data@, pos as int, remaining as int) == Some(h),
            Err(e) => {
                &&& e == StreamError::MalformedStream
                &&& spec_parse_obu_header(data@, pos as int, remaining as int) is None
            },
        },
{
    if remaining < 1 || pos >= data.len() {
        return Err(StreamError::MalformedStream);
    }
    let b = data[pos];
    if b & 0x80 != 0 {
        return Err(StreamError::MalformedStream);
    }
    let ext = (b >> 2) & 1 == 1;
    let has_size = (b >> 1) & 1 == 1;
    let hdr: u32 = if ext {
        2
    } else {
        1
    };
    if remaining < hdr || data.len() - pos < hdr as usize {
        return Err(StreamError::MalformedStream);
    }
    if has_size {
        match read_leb128(data, pos + hdr as usize, 8) {
            None => Err(StreamError::MalformedStream),
            Some((v, n)) => {
                if v > u32::MAX as u64 || remaining < hdr + n as u32 {
                    Err(StreamError::MalformedStream)
                } else {
                    Ok(
                        ObuHeader {
                            obu_type: (b >> 3) & 0x0f,
                            has_extension: ext,
                            header_len: hdr + n as u32,
                            obu_size: v as u32,
                        },
                    )
                }
            },
        }
    } else {
        Ok(
            ObuHeader {
                obu_type: (b >> 3) & 0x0f,
                has_extension: ext,
                header_len: hdr,
                obu_size: remaining - hdr,
            },
        )
    }
}

/// The leading fields of the stream's sequence parameters: everything the
/// level analysis and the patcher need.
#[derive(Clone, Copy, Debug, PartialEq, Eq, Structural)]
pub struct SequenceParams {
    pub seq_profile: u8,
    pub still_picture: bool,
    pub reduced_still_picture_header: bool,
    pub timing_info_present: bool,
    /// Count of declared operating points (at least 1).
    pub operating_points_cnt: u8,
    /// The first operating point's declared level index.
    pub seq_level_idx: u8,
    /// The first operating point's tier bit; false is Main.  The bit is
    /// present only when the level index is above 7.
    pub seq_tier: bool,
    pub max_frame_width: u32,
    pub max_frame_height: u32,
}

/// The bit position just past one operating point's fields starting at bit
/// `pos`: a 12-bit identifier, a 5-bit level, a tier bit when the level is
/// above 7, and an optional initial-display-delay flag and 4-bit value.
pub open spec fn spec_op_end(s: Seq<u8>, pos: int, idd: bool) -> Option<int> {
    let nb = s.len() * 8;
    if pos + 17 > nb {
        None
    } else {
        let lvl = bits_val(s, pos + 12, 5);
        let p2 = pos + 17 + (if lvl > 7 {
            1int
        } else {
            0int
        });
        if p2 > nb {
            None
        } else if idd {
            if p2 + 1 > nb {
                None
            } else {
                let p3 = p2 + 1 + (if seq_bit(s, p2) {
                    4int
                } else {
                    0int
                });
                if p3 > nb {
                    None
                } else {
                    Some(p3)
                }
            }
        } else {
            Some(p2)
        }
    }
}

/// The bit position just past `count` operating points starting at `pos`.
pub open spec fn spec_skip_ops(s: Seq<u8>, pos: int, count: int, idd: bool) -> Option<int>
    decreases count,
{
    if count <= 0 {
        Some(pos)
    } else {
        match spec_op_end(s, pos, idd) {
            None => None,
            Some(p) => spec_skip_ops(s, p, count - 1, idd),
        }
    }
}

/// The maximum frame width and height coded at bit `pos`: two 4-bit field
/// widths, then the width and height, each stored less one.
pub open spec fn spec_frame_size(s: Seq<u8>, pos: int) -> Option<(int, int)> {
    let nb = s.len() * 8;
    if pos + 8 > nb {
        None
    } else {
        let wb = bits_val(s, pos, 4) + 1;
        let hb = bits_val(s, pos + 4, 4) + 1;
        if pos + 8 + wb + hb > nb {
            None
        } else {
            Some((bits_val(s, pos + 8, wb as nat) + 1, bits_val(s, pos + 8 + wb, hb as nat) + 1))
        }
    }
}

/// The decoded leading fields of a sequence-parameters payload.
///
/// A reduced still-picture header carries only the level; otherwise the
/// operating points are walked to reach the frame dimensions, the first
/// point's level and tier are kept, and extended timing information is
/// rejected as unsupported.  A payload too short for its own layout is
/// malformed.
pub open spec fn spec_parse_seq_params(s: Seq<u8>) -> Result<SequenceParams, StreamError> {
    let nb = s.len() * 8;
    if nb < 10 {
        Err(StreamError::MalformedStream)
    } else {
        let profile = bits_val(s, 0, 3);
        let still = seq_bit(s, 3);
        let reduced = seq_bit(s, 4);
        if reduced {
            match spec_frame_size(s, 10) {
                None => Err(StreamError::MalformedStream),
                Some((w, h)) => Ok(
                    SequenceParams {
                        seq_profile: profile as u8,
                        still_picture: still,
                        reduced_still_picture_header: true,
                        timing_info_present: false,
                        operating_points_cnt: 1,
                        seq_level_idx: bits_val(s, 5, 5) as u8,
                        seq_tier: false,
                        max_frame_width: w as u32,
                        max_frame_height: h as u32,
                    },
                ),
            }
        } else if nb < 12 {
            Err(StreamError::MalformedStream)
        } else if seq_bit(s, 5) {
            Err(StreamError::UnsupportedFeature)
        } else {
            let idd = seq_bit(s, 6);
            let ops = bits_val(s, 7, 5) + 1;
            match spec_op_end(s, 12, idd) {
                None => Err(StreamError::MalformedStream),
                Some(p1) => {
                    let lvl0 = bits_val(s, 24, 5);
                    let tier0 = lvl0 > 7 && seq_bit(s, 29);
                    match spec_skip_ops(s, p1, ops - 1, idd) {
                        None => Err(StreamError::MalformedStream),
                        Some(pend) => match spec_frame_size(s, pend) {
                            None => Err(StreamError::MalformedStream),
                            Some((w, h)) => Ok(
                                SequenceParams {
                                    seq_profile: profile as u8,
                                    still_picture: still,
                                    reduced_still_picture_header: false,
                                    timing_info_present: false,
                                    operating_points_cnt: ops as u8,
                                    seq_level_idx: lvl0 as u8,
                                    seq_tier: tier0,
                                    max_frame_width: w as u32,
                                    max_frame_height: h as u32,
                                },
                            ),
                        },
                    }
                },
            }
        }
    }
}

fn op_end(data: &Vec<u8>, pos: usize, idd: bool) -> (r: Option<usize>)
    requires
        data.len() <= usize::MAX / 16,
        pos <= data.len() * 8,
    ensures
        match r {
            Some(p) => {
                &&& spec_op_end(data@, pos as int, idd) == Some(p as int)
                &&& pos < p <= data@.len() * 8
            },
            None => spec_op_end(data@, pos as int, idd) is None,
        },
{
    let nb = data.len() * 8;
    if nb - pos < 17 {
        return None;
    }
    let lvl = read_bits(data, pos + 12, 5);
    let p2 = pos + 17 + (if lvl > 7 {
        1
    } else {
        0
    });
    if p2 > nb {
        return None;
    }
    if idd {
        if nb - p2 < 1 {
            return None;
        }
        let p3 = p2 + 1 + (if get_bit(data, p2) {
            4
        } else {
            0
        });
        if p3 > nb {
            return None;
        }
        Some(p3)
    } else {
        Some(p2)
    }
}

fn frame_size(data: &Vec<u8>, pos: usize) -> (r: Option<(u32, u32)>)
    requires
        data.len() <= usize::MAX / 16,
        pos <= data.len() * 8,
    ensures
        match r {
            Some((w, h)) => spec_frame_size(data@, pos as int) == Some((w as int, h as int)),
            None => spec_frame_size(data@, pos as int) is None,
        },
{
    let nb = data.len() * 8;
    if nb - pos < 8 {
        return None;
    }
    proof {
        lemma2_to64();
    }
    let wb = read_bits(data, pos, 4) as usize + 1;
    let hb = read_bits(data, pos + 4, 4) as usize + 1;
    if nb - pos - 8 < wb + hb {
        return None;
    }
    let w = read_bits(data, pos + 8, wb);
    let h = read_bits(data, pos + 8 + wb, hb);
    proof {
        vstd::arithmetic::power2::lemma_pow2_strictly_increases(wb as nat, 17);
        vstd::arithmetic::power2::lemma_pow2_strictly_increases(hb as nat, 17);
    }
    Some((w + 1, h + 1))
}

/// Decode the leading fields of a sequence-parameters payload.
pub fn parse_sequence_params(data: &Vec<u8>) -> (r: Result<SequenceParams, StreamError>)
    requires
        data.len() <= usize::MAX / 16,
    ensures
        r == spec_parse_seq_params(data@),
        r is Ok ==> r->Ok_0.seq_level_idx < 32 && r->Ok_0.operating_points_cnt >= 1
            && !r->Ok_0.timing_info_present,
{
    let nb = data.len() * 8;
    if nb < 10 {
        return Err(StreamError::MalformedStream);
    }
    proof {
        lemma2_to64();
    }
    let profile = read_bits(data, 0, 3) as u8;
    let still = get_bit(data, 3);
    let reduced = get_bit(data, 4);
    if reduced {
        match frame_size(data, 10) {
            None => Err(StreamError::MalformedStream),
            Some((w, h)) => Ok(
                SequenceParams {
                    seq_profile: profile,
                    still_picture: still,
                    reduced_still_picture_header: true,
                    timing_info_present: false,
                    operating_points_cnt: 1,
                    seq_level_idx: read_bits(data, 5, 5) as u8,
                    seq_tier: false,
                    max_frame_width: w,
                    max_frame_height: h,
                },
            ),
        }
    } else if nb < 12 {
        Err(StreamError::MalformedStream)
    } else if get_bit(data, 5) {
        Err(StreamError::UnsupportedFeature)
    } else {
        let idd = get_bit(data, 6);
        let ops = read_bits(data, 7, 5) as u8 + 1;
        match op_end(data, 12, idd) {
            None => Err(StreamError::MalformedStream),
            Some(p1) => {
                let lvl0 = read_bits(data, 24, 5) as u8;
                let tier0 = lvl0 > 7 && get_bit(data, 29);
                let mut pos = p1;
                let mut left: u8 = ops - 1;
                let mut failed = false;
                while left > 0 && !failed
                    invariant
                        data.len() <= usize::MAX / 16,
                        pos <= data@.len() * 8,
                        !failed ==> spec_skip_ops(data@, p1 as int, ops - 1, idd) == spec_skip_ops(
                            data@,
                            pos as int,
                            left as int,
                            idd,
                        ),
                        failed ==> spec_skip_ops(data@, p1 as int, ops - 1, idd) is None,
                    decreases left, (if failed {
                        0int
                    } else {
                        1int
                    }),
                {
                    match op_end(data, pos, idd) {
                        Some(p) => {
                            pos = p;
                            left = left - 1;
                        },
                        None => {
                            failed = true;
                        },
                    }
                }
                if failed {
                    return Err(StreamError::MalformedStream);
                }
                match frame_size(data, pos) {
                    None => Err(StreamError::MalformedStream),
                    Some((w, h)) => Ok(
                        SequenceParams {
                            seq_profile: profile,
                            still_picture: still,
                            reduced_still_picture_header: false,
                            timing_info_present: false,
                            operating_points_cnt: ops,
                            seq_level_idx: lvl0,
                            seq_tier: tier0,
                            max_frame_width: w,
                            max_frame_height: h,
                        },
                    ),
                }
            },
        }
    }
}

proof fn lemma_skip_ops_lower(s: Seq<u8>, pos: int, count: int, idd: bool)
    ensures
        spec_skip_ops(s, pos, count, idd) is Some ==> spec_skip_ops(s, pos, count, idd)->0 >= pos,
    decreases count,
{
    if count > 0 && spec_op_end(s, pos, idd) is Some {
        let p = spec_op_end(s, pos, idd)->0;
        lemma_skip_ops_lower(s, p, count - 1, idd);
    }
}

/// What a successfully decoded sequence-parameters payload guarantees of
/// its own bytes: no extended timing information, a level field that is the
/// 5 bits at its layout's offset, and room in the payload for that field
/// and the bit that would follow it.
pub proof fn lemma_parse_ok_layout(s: Seq<u8>)
    requires
        spec_parse_seq_params(s) is Ok,
    ensures
        ({
            let p = spec_parse_seq_params(s)->Ok_0;
            let off: int = if p.reduced_still_picture_header {
                5
            } else {
                24
            };
            &&& !p.timing_info_present
            &&& p.operating_points_cnt >= 1
            &&& p.seq_level_idx < 32
            &&& p.seq_level_idx == bits_val(s, off, 5)
            &&& off + 6 <= s.len() * 8
        }),
{
    let p = spec_parse_seq_params(s)->Ok_0;
    crate::bits::lemma_bits_val_bound(s, 5, 5);
    crate::bits::lemma_bits_val_bound(s, 7, 5);
    crate::bits::lemma_bits_val_bound(s, 24, 5);
    vstd::arithmetic::power2::lemma2_to64();
    if p.reduced_still_picture_header {
        // The reduced branch parses the frame dimensions at bit 10, so at
        // least 18 more bits exist beyond the level field.
        assert(spec_frame_size(s, 10) is Some);
    } else {
        let idd = seq_bit(s, 6);
        let ops = bits_val(s, 7, 5) + 1;
        let p1 = spec_op_end(s, 12, idd)->0;
        assert(p1 >= 29);
        lemma_skip_ops_lower(s, p1, ops - 1, idd);
        let pend = spec_skip_ops(s, p1, ops - 1, idd)->0;
        assert(pend >= 29);
        assert(spec_frame_size(s, pend) is Some);
        assert(pend + 8 <= s.len() * 8);
    }
}

/// Feed one unit to the sequence-parameter tracker: a sequence-header unit
/// replaces the tracked parameters with its decoded fields; any other unit
/// leaves them as they are.
pub fn process_obu(seq: &mut Option<SequenceParams>, obu_type: u8, payload: &Vec<u8>) -> (r: Result<
    (),
    StreamError,
>)
    requires
        payload.len() <= usize::MAX / 16,
    ensures
        obu_type != OBU_SEQUENCE_HEADER ==> r is Ok && *final(seq) == *old(seq),
        obu_type == OBU_SEQUENCE_HEADER ==> match spec_parse_seq_params(payload@) {
            Ok(p) => r is Ok && *final(seq) == Some(p),
            Err(e) => r == Result::<(), StreamError>::Err(e) && *final(seq) == *old(seq),
        },
{
    if obu_type == OBU_SEQUENCE_HEADER {
        match parse_sequence_params(payload) {
            Ok(p) => {
                *seq = Some(p);
                Ok(())
            },
            Err(e) => Err(e),
        }
    } else {
        Ok(())
    }
}

} // verus!
