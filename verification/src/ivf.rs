//! The simple container wrapping the coded stream: a 32-byte file header
//! and, per frame, a 12-byte header carrying the frame's byte size and its
//! presentation timestamp.

use vstd::prelude::*;

use crate::error::StreamError;

verus! {

/// A little-endian 16-bit value at byte offset `off`.
pub open spec fn le16(s: Seq<u8>, off: int) -> int {
    s[off] + s[off + 1] * 0x100
}

/// A little-endian 32-bit value at byte offset `off`.
pub open spec fn le32(s: Seq<u8>, off: int) -> int {
    s[off] + s[off + 1] * 0x100 + s[off + 2] * 0x1_0000 + s[off + 3] * 0x100_0000
}

/// A little-endian 64-bit value at byte offset `off`.
pub open spec fn le64(s: Seq<u8>, off: int) -> int {
    le32(s, off) + le32(s, off + 4) * 0x1_0000_0000
}

/// The four magic bytes "DKIF" followed by version zero.
pub open spec fn is_ivf(s: Seq<u8>) -> bool {
    &&& s[0] == 0x44
    &&& s[1] == 0x4B
    &&& s[2] == 0x49
    &&& s[3] == 0x46
    &&& le16(s, 4) == 0
}

/// The four codec bytes "AV01".
pub open spec fn is_av01(s: Seq<u8>) -> bool {
    &&& s[8] == 0x41
    &&& s[9] == 0x56
    &&& s[10] == 0x30
    &&& s[11] == 0x31
}

/// The container's stream-wide metadata.
///
/// `framerate / timescale` is the number of presentation-time units per
/// second (the first field's conventional name is inaccurate: it is the
/// time-base numerator, not a frame rate).
#[derive(Clone, Copy, Debug, PartialEq, Eq, Structural)]
pub struct IvfHeader {
    pub width: u16,
    pub height: u16,
    pub framerate: u32,
    pub timescale: u32,
    pub num_frames: u32,
}

/// One frame's container metadata: coded size and presentation timestamp.
#[derive(Clone, Copy, Debug, PartialEq, Eq, Structural)]
pub struct IvfFrame {
    pub size: u32,
    pub pts: u64,
}

fn read_le16(data: &Vec<u8>, off: usize) -> (r: u16)
    requires
        off + 2 <= data.len(),
    ensures
        r == le16(data@, off as int),
{
    (data[off] as u16) + (data[off + 1] as u16) * 0x100
}

fn read_le32(data: &Vec<u8>, off: usize) -> (r: u32)
    requires
        off + 4 <= data.len(),
    ensures
        r == le32(data@, off as int),
{
    (data[off] as u32) + (data[off + 1] as u32) * 0x100 + (data[off + 2] as u32) * 0x1_0000 + (
    data[off + 3] as u32) * 0x100_0000
}

fn read_le64(data: &Vec<u8>, off: usize) -> (r: u64)
    requires
        off + 8 <= data.len(),
    ensures
        r == le64(data@, off as int),
{
    (read_le32(data, off) as u64) + (read_le32(data, off + 4) as u64) * 0x1_0000_0000
}

/// Parse the container's 32-byte file header.
///
/// A short buffer is a malformed stream; wrong magic or version is an
/// unsupported container; a codec other than the supported one is an
/// unsupported codec.
pub fn parse_ivf_header(data: &Vec<u8>) -> (r: Result<IvfHeader, StreamError>)
    ensures
        match r {
            Ok(h) => {
                &&& data@.len() >= 32
                &&& is_ivf(data@)
                &&& is_av01(data@)
                &&& h.width == le16(data@, 12)
                &&& h.height == le16(data@, 14)
                &&& h.framerate == le32(data@, 16)
                &&& h.timescale == le32(data@, 20)
                &&& h.num_frames == le32(data@, 24)
            },
            Err(e) => {
                &&& (e == StreamError::MalformedStream <==> data@.len() < 32)
                &&& (e == StreamError::UnsupportedContainerFormat <==> data@.len() >= 32 && !is_ivf(
                    data@,
                ))
                &&& (e == StreamError::UnsupportedCodec <==> data@.len() >= 32 && is_ivf(data@)
                    && !is_av01(data@))
                &&& (e == StreamError::MalformedStream || e
                    == StreamError::UnsupportedContainerFormat || e
                    == StreamError::UnsupportedCodec)
            },
        },
{
    if data.len() < 32 {
        return Err(StreamError::MalformedStream);
    }
    if !(data[0] == 0x44 && data[1] == 0x4B && data[2] == 0x49 && data[3] == 0x46 && read_le16(
        data,
        4,
    ) == 0) {
        return Err(StreamError::UnsupportedContainerFormat);
    }
    if !(data[8] == 0x41 && data[9] == 0x56 && data[10] == 0x30 && data[11] == 0x31) {
        return Err(StreamError::UnsupportedCodec);
    }
    Ok(
        IvfHeader {
            width: read_le16(data, 12),
            height: read_le16(data, 14),
            framerate: read_le32(data, 16),
            timescale: read_le32(data, 20),
            num_frames: read_le32(data, 24),
        },
    )
}

/// Parse one frame's 12-byte container header at byte offset `off`.
pub fn parse_ivf_frame(data: &Vec<u8>, off: usize) -> (r: Result<IvfFrame, StreamError>)
    requires
        off <= usize::MAX - 12,
    ensures
        match r {
            Ok(f) => {
                &&& off + 12 <= data@.len()
                &&& f.size == le32(data@, off as int)
                &&& f.pts == le64(data@, off + 4)
            },
            Err(e) => {
                &&& e == StreamError::MalformedStream
                &&& off + 12 > data@.len()
            },
        },
{
    if off + 12 > data.len() {
        return Err(StreamError::MalformedStream);
    }
    Ok(IvfFrame { size: read_le32(data, off), pts: read_le64(data, off + 4) })
}

} // verus!
