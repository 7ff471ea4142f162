//! The streaming statistics accumulator.
//!
//! One pass over the parsed records of a stream maintains, per temporal
//! unit, counters of shown, decoded and header-bearing frames, the coded
//! sizes, and the minimum observed per-frame compression ratio; a sliding
//! window of one time-scale unit of samples yields the header rate and the
//! bitrate.  Every quantity is exact rational or saturating integer
//! arithmetic; the transition taken by each event is stated as a spec-level
//! step function that the executable code provably implements.

use vstd::prelude::*;

use crate::compress::{min_cr_level_index, spec_cr_implied};
use crate::error::StreamError;
use crate::level::{SequenceContext, Tier};
use crate::ratio::{
    add_clamp, ceil_div, ceil_mul_div_clamp, clamp64, mul_clamp, ratio_le, spec_ratio_max, Ratio,
};

verus! {

/// What one temporal unit contributes to the sliding one-second window.
#[derive(Clone, Copy, Debug, PartialEq, Eq, Structural)]
pub struct TemporalUnitSample {
    pub header_count: u64,
    pub byte_size: u64,
    pub duration: u64,
}

/// Summed durations of the window's samples.
pub open spec fn window_dur(w: Seq<TemporalUnitSample>) -> int
    decreases w.len(),
{
    if w.len() == 0 {
        0
    } else {
        window_dur(w.drop_last()) + w.last().duration
    }
}

/// Summed header counts of the window's samples.
pub open spec fn window_headers(w: Seq<TemporalUnitSample>) -> int
    decreases w.len(),
{
    if w.len() == 0 {
        0
    } else {
        window_headers(w.drop_last()) + w.last().header_count
    }
}

/// Summed byte sizes of the window's samples.
pub open spec fn window_bytes(w: Seq<TemporalUnitSample>) -> int
    decreases w.len(),
{
    if w.len() == 0 {
        0
    } else {
        window_bytes(w.drop_last()) + w.last().byte_size
    }
}

/// The window after eviction: samples leave from the front while the summed
/// duration still exceeds one time-scale unit (`num / den` time units).
pub open spec fn spec_evict(w: Seq<TemporalUnitSample>, num: int, den: int) -> Seq<
    TemporalUnitSample,
>
    decreases w.len(),
{
    if w.len() == 0 {
        w
    } else if clamp64(window_dur(w)) * den > num {
        spec_evict(w.drop_first(), num, den)
    } else {
        w
    }
}

/// Sum the window's durations, header counts and byte sizes, each
/// saturating at `u64::MAX`.
fn window_sums(w: &Vec<TemporalUnitSample>) -> (r: (u64, u64, u64))
    ensures
        r.0 == clamp64(window_dur(w@)),
        r.1 == clamp64(window_headers(w@)),
        r.2 == clamp64(window_bytes(w@)),
{
    let mut dur: u64 = 0;
    let mut headers: u64 = 0;
    let mut bytes: u64 = 0;
    let mut i: usize = 0;
    proof {
        assert(w@.take(0) =~= Seq::<TemporalUnitSample>::empty());
    }
    while i < w.len()
        invariant
            i <= w@.len(),
            dur == clamp64(window_dur(w@.take(i as int))),
            headers == clamp64(window_headers(w@.take(i as int))),
            bytes == clamp64(window_bytes(w@.take(i as int))),
        decreases w@.len() - i,
    {
        let s = w[i];
        proof {
            assert(w@.take(i + 1).drop_last() =~= w@.take(i as int));
            assert(w@.take(i + 1).last() == w@[i as int]);
        }
        dur = add_clamp(dur, s.duration);
        headers = add_clamp(headers, s.header_count);
        bytes = add_clamp(bytes, s.byte_size);
        i = i + 1;
    }
    proof {
        assert(w@.take(w@.len() as int) =~= w@);
    }
    (dur, headers, bytes)
}

/// Whether the window's summed duration strictly exceeds one time-scale
/// unit, i.e. `dur > num / den`.
fn window_over(w: &Vec<TemporalUnitSample>, num: u32, den: u32) -> (r: bool)
    ensures
        r == (clamp64(window_dur(w@)) * den > num),
{
    let (dur, _, _) = window_sums(w);
    proof {
        vstd::arithmetic::mul::lemma_mul_upper_bound(
            dur as int,
            u64::MAX as int,
            den as int,
            u32::MAX as int,
        );
        assert((u64::MAX as int) * (u32::MAX as int) <= u128::MAX) by (nonlinear_arith);
    }
    (dur as u128) * (den as u128) > num as u128
}

/// Evict samples from the front of the window while its summed duration
/// exceeds one time-scale unit.
fn evict_window(w: &mut Vec<TemporalUnitSample>, num: u32, den: u32)
    ensures
        final(w)@ == spec_evict(old(w)@, num as int, den as int),
    decreases old(w)@.len(),
{
    if w.len() > 0 && window_over(w, num, den) {
        w.remove(0);
        proof {
            assert(w@ =~= old(w)@.drop_first());
        }
        evict_window(w, num, den);
    }
}

/// Tier and profile taken from the stream's sequence parameters.
#[derive(Clone, Copy, Debug, PartialEq, Eq, Structural)]
pub struct SequenceInfo {
    pub seq_profile: u8,
    pub tier: Tier,
}

/// The accumulator: per-unit counters, the sliding window, and the running
/// maxima that finalization turns into a `SequenceContext`.
pub struct StatisticsAccumulator {
    /// Time-scale numerator: presentation-time units per second is
    /// `time_scale_num / time_scale_den`.
    pub time_scale_num: u32,
    pub time_scale_den: u32,
    /// Container-declared picture area in luma samples.
    pub picture_size: u64,
    /// Tier and profile, once the sequence parameters have been seen.
    pub seq_info: Option<SequenceInfo>,
    // Counters for the temporal unit in progress.
    pub show_count: u64,
    pub frame_count: u64,
    pub header_count: u64,
    pub tu_size: u64,
    /// Running coded size of the frame in progress; starts at the frame
    /// header's size less a fixed 128-byte accounting allowance, so it may
    /// be negative.
    pub frame_size: i64,
    pub seen_frame_header: bool,
    /// Minimum observed per-frame compression ratio; `None` until a frame
    /// has been closed out (an unbounded ratio).
    pub min_compressed_ratio: Option<Ratio>,
    /// Presentation time of the first frame of the previous temporal unit.
    pub last_tu_time: u64,
    /// Presentation time of the first frame of the current temporal unit.
    pub cur_tu_time: u64,
    /// The sliding one-time-scale-unit window.
    pub window: Vec<TemporalUnitSample>,
    // Running maxima, as exact rationals per presentation-time accounting.
    pub max_display_rate: Ratio,
    pub max_decode_rate: Ratio,
    pub max_header_rate: Ratio,
    /// Bits per second.
    pub max_bitrate: Ratio,
    /// The floor that the compression-ratio model imposes on the level.
    pub min_cr_level_idx: u8,
    pub max_tiles: u64,
    pub max_tile_cols: u64,
    pub max_tile_list_bitrate: u64,
    pub max_tile_decode_rate: Ratio,
    /// Tiling of the last seen frame header.
    pub last_tile_cols: u32,
    pub last_tile_rows: u32,
    pub total_show_count: u64,
}

impl StatisticsAccumulator {
    /// The accumulator's invariant.
    pub open spec fn wf(self) -> bool {
        &&& self.time_scale_num >= 1
        &&& self.time_scale_den >= 1
        &&& self.picture_size <= u32::MAX
        &&& self.last_tu_time <= self.cur_tu_time
        &&& self.max_display_rate.wf()
        &&& self.max_decode_rate.wf()
        &&& self.max_header_rate.wf()
        &&& self.max_bitrate.wf()
        &&& self.max_tile_decode_rate.wf()
        &&& (self.min_compressed_ratio is Some ==> self.min_compressed_ratio->0.wf())
        &&& self.min_cr_level_idx < 32
    }

    /// A fresh accumulator for a stream with the given time scale and
    /// container-declared picture size.
    pub fn new(time_scale_num: u32, time_scale_den: u32, width: u16, height: u16) -> (r:
        StatisticsAccumulator)
        requires
            time_scale_num >= 1,
            time_scale_den >= 1,
        ensures
            r.wf(),
            r.time_scale_num == time_scale_num,
            r.time_scale_den == time_scale_den,
            r.picture_size == width as int * height as int,
            r.seq_info is None,
            r.window@.len() == 0,
            r.show_count == 0 && r.frame_count == 0 && r.header_count == 0,
            r.tu_size == 0 && r.frame_size == 0,
            !r.seen_frame_header,
            r.min_compressed_ratio is None,
            r.last_tu_time == 0 && r.cur_tu_time == 0,
            r.max_display_rate == zero_rate() && r.max_decode_rate == zero_rate(),
            r.max_header_rate == zero_rate() && r.max_bitrate == zero_rate(),
            r.max_tile_decode_rate == zero_rate(),
            r.min_cr_level_idx == 0,
            r.max_tiles == 0 && r.max_tile_cols == 0 && r.max_tile_list_bitrate == 0,
            r.total_show_count == 0,
    {
        proof {
            vstd::arithmetic::mul::lemma_mul_upper_bound(
                width as int,
                u16::MAX as int,
                height as int,
                u16::MAX as int,
            );
            assert((u16::MAX as int) * (u16::MAX as int) <= u32::MAX) by (nonlinear_arith);
        }
        StatisticsAccumulator {
            time_scale_num,
            time_scale_den,
            picture_size: (width as u64) * (height as u64),
            seq_info: None,
            show_count: 0,
            frame_count: 0,
            header_count: 0,
            tu_size: 0,
            frame_size: 0,
            seen_frame_header: false,
            min_compressed_ratio: None,
            last_tu_time: 0,
            cur_tu_time: 0,
            window: Vec::new(),
            max_display_rate: Ratio { num: 0, den: 1 },
            max_decode_rate: Ratio { num: 0, den: 1 },
            max_header_rate: Ratio { num: 0, den: 1 },
            max_bitrate: Ratio { num: 0, den: 1 },
            min_cr_level_idx: 0,
            max_tiles: 0,
            max_tile_cols: 0,
            max_tile_list_bitrate: 0,
            max_tile_decode_rate: Ratio { num: 0, den: 1 },
            last_tile_cols: 0,
            last_tile_rows: 0,
            total_show_count: 0,
        }
    }

    /// Record the tier and profile of the stream's sequence parameters.
    pub fn ingest_sequence_header(&mut self, seq_profile: u8, tier: Tier)
        requires
            old(self).wf(),
        ensures
            final(self).wf(),
            *final(self) == (StatisticsAccumulator {
                seq_info: Some(SequenceInfo { seq_profile, tier }),
                ..*old(self)
            }),
    {
        self.seq_info = Some(SequenceInfo { seq_profile, tier });
    }

    /// A metadata or tile-group payload: its bytes count towards the frame
    /// in progress and the current temporal unit.
    pub fn ingest_payload(&mut self, obu_size: u32)
        requires
            old(self).wf(),
        ensures
            final(self).wf(),
            *final(self) == (StatisticsAccumulator {
                frame_size: add_i64_clamp(old(self).frame_size as int, obu_size as int) as i64,
                tu_size: clamp64(old(self).tu_size + obu_size) as u64,
                ..*old(self)
            }),
    {
        self.frame_size = add_clamp_i64_u32(self.frame_size, obu_size);
        self.tu_size = add_clamp(self.tu_size, obu_size as u64);
    }

    /// A tile list: raise the tile-list bitrate and decode-rate maxima.
    ///
    /// The decode-rate term divides the picture by the last seen tiling, so
    /// it is skipped while no tiled frame header has been seen.
    pub fn ingest_tile_list(&mut self, bytes_per_tile_list: u64, tile_count: u32)
        requires
            old(self).wf(),
        ensures
            final(self).wf(),
            *final(self) == (StatisticsAccumulator {
                max_tile_list_bitrate: spec_max64(
                    old(self).max_tile_list_bitrate as int,
                    clamp64(clamp64(bytes_per_tile_list * 8) * 180),
                ) as u64,
                max_tile_decode_rate: spec_tile_decode_max(*old(self), tile_count),
                ..*old(self)
            }),
    {
        let bits = mul_clamp(bytes_per_tile_list, 8);
        let rate = mul_clamp(bits, 180);
        if rate > self.max_tile_list_bitrate {
            self.max_tile_list_bitrate = rate;
        }
        if self.last_tile_cols >= 1 && self.last_tile_rows >= 1 {
            proof {
                vstd::arithmetic::mul::lemma_mul_upper_bound(
                    self.last_tile_cols as int,
                    u32::MAX as int,
                    self.last_tile_rows as int,
                    u32::MAX as int,
                );
                assert((u32::MAX as int) * (u32::MAX as int) <= u64::MAX) by (nonlinear_arith);
                assert(self.last_tile_cols as int * self.last_tile_rows as int >= 1)
                    by (nonlinear_arith)
                    requires
                        self.last_tile_cols >= 1,
                        self.last_tile_rows >= 1,
                ;
            }
            let num = mul_clamp(
                mul_clamp(self.picture_size, (tile_count as u64) + 1),
                180,
            );
            let den = (self.last_tile_cols as u64) * (self.last_tile_rows as u64);
            let rate = Ratio { num, den };
            self.max_tile_decode_rate = self.max_tile_decode_rate.max(rate);
        }
    }
}

/// The larger of two integers, for saturating running maxima.
pub open spec fn spec_max64(a: int, b: int) -> int {
    if a >= b {
        a
    } else {
        b
    }
}

/// The tile-list decode-rate maximum after one tile list: the picture area
/// split by the last seen tiling, times the list's tile count, times 180.
pub open spec fn spec_tile_decode_max(s: StatisticsAccumulator, tile_count: u32) -> Ratio {
    if s.last_tile_cols >= 1 && s.last_tile_rows >= 1 {
        spec_ratio_max(
            s.max_tile_decode_rate,
            Ratio {
                num: clamp64(clamp64(s.picture_size * (tile_count + 1)) * 180) as u64,
                den: (s.last_tile_cols * s.last_tile_rows) as u64,
            },
        )
    } else {
        s.max_tile_decode_rate
    }
}

/// `a + b` over `i64`, saturating at `i64::MAX` (`b` is non-negative).
pub open spec fn add_i64_clamp(a: int, b: int) -> int {
    if a + b > i64::MAX {
        i64::MAX as int
    } else {
        a + b
    }
}

/// Add an unsigned payload size to a signed running tally, saturating.
fn add_clamp_i64_u32(a: i64, b: u32) -> (r: i64)
    ensures
        r == add_i64_clamp(a as int, b as int),
{
    if a > i64::MAX - (b as i64) {
        i64::MAX
    } else {
        a + (b as i64)
    }
}

/// The zero rate.
pub open spec fn zero_rate() -> Ratio {
    Ratio { num: 0u64, den: 1u64 }
}

/// `count / (delta / time_scale)` events per second, as a rational with
/// saturating products: `count * num` over `delta * den`.
pub open spec fn spec_rate(count: int, delta: int, num: int, den: int) -> Ratio {
    Ratio { num: clamp64(count * num) as u64, den: clamp64(delta * den) as u64 }
}

fn make_rate(count: u64, delta: u64, num: u32, den: u32) -> (r: Ratio)
    requires
        delta >= 1,
        den >= 1,
    ensures
        r == spec_rate(count as int, delta as int, num as int, den as int),
        r.wf(),
{
    proof {
        assert(delta * den >= 1) by (nonlinear_arith)
            requires
                delta >= 1,
                den >= 1,
        ;
    }
    Ratio { num: mul_clamp(count, num as u64), den: mul_clamp(delta, den as u64) }
}

/// A window sum of `count_sum` events over `dur` time units, normalized to
/// one second: `count_sum * num` over `dur * den`.
pub open spec fn spec_window_rate(count_sum: int, dur: int, num: int, den: int) -> Ratio {
    Ratio {
        num: clamp64(clamp64(count_sum) * num) as u64,
        den: clamp64(clamp64(dur) * den) as u64,
    }
}

/// The lesser of two rationals (`a` on ties).
pub open spec fn spec_ratio_min(a: Ratio, b: Ratio) -> Ratio {
    if ratio_le(a, b) {
        a
    } else {
        b
    }
}

/// The uncompressed-size multiplier of a profile: 15, 30 or 36 eighths of a
/// sample for profiles 0, 1 and anything higher.
pub open spec fn spec_profile_factor(p: u8) -> int {
    if p == 0 {
        15
    } else if p == 1 {
        30
    } else {
        36
    }
}

/// The minimum observed per-frame compression ratio after closing out the
/// frame in progress: `uncompressed_size / frame_size` folded into the
/// running minimum, where the uncompressed size is the picture area times
/// the profile factor, divided by eight.  A frame tally that never became
/// positive closes nothing.
pub open spec fn spec_close_frame(s: StatisticsAccumulator) -> Option<Ratio> {
    if s.seq_info is Some && s.frame_size > 0 {
        let unc = s.picture_size * spec_profile_factor(s.seq_info->0.seq_profile) / 8;
        let fresh = Ratio { num: unc as u64, den: s.frame_size as u64 };
        match s.min_compressed_ratio {
            None => Some(fresh),
            Some(m) => Some(spec_ratio_min(m, fresh)),
        }
    } else {
        s.min_compressed_ratio
    }
}

/// The sample the current temporal unit contributes to the window.
pub open spec fn spec_tu_sample(s: StatisticsAccumulator, duration: int) -> TemporalUnitSample {
    TemporalUnitSample { header_count: s.header_count, byte_size: s.tu_size, duration: duration as u64 }
}

/// The window after pushing the closing unit's sample and evicting.
pub open spec fn spec_closed_window(s: StatisticsAccumulator, duration: int) -> Seq<
    TemporalUnitSample,
> {
    spec_evict(
        s.window@.push(spec_tu_sample(s, duration)),
        s.time_scale_num as int,
        s.time_scale_den as int,
    )
}

/// Whether the window, once the closing sample is pushed, spans at least
/// one time-scale unit, so that the normalized rates are measured.
pub open spec fn spec_window_full(s: StatisticsAccumulator, duration: int) -> bool {
    clamp64(window_dur(s.window@.push(spec_tu_sample(s, duration)))) * s.time_scale_den
        >= s.time_scale_num
}

/// The compression-ratio level floor after a unit closes with the given
/// display rate: raised to the index the model implies, when the tier is
/// known.
pub open spec fn spec_cr_floor(s: StatisticsAccumulator, display_rate: Ratio) -> int {
    if s.seq_info is Some {
        spec_max64(
            s.min_cr_level_idx as int,
            spec_cr_implied(s.seq_info->0.tier, display_rate, s.min_compressed_ratio),
        )
    } else {
        s.min_cr_level_idx as int
    }
}

/// How a temporal-unit boundary at `pts` takes the accumulator from `s` to
/// `t`: a boundary with a presentation time distinct from the tracked
/// unit's start closes the unit — the display- and decode-rate maxima take
/// the closed unit's rates, the unit's sample enters the sliding window,
/// the normalized header-rate and bitrate maxima are measured when the
/// window spans a full time-scale unit, the compression-ratio floor is
/// raised, and the per-unit counters reset.  A boundary at the same
/// presentation time is a duplicate delimiter and changes nothing.
pub open spec fn spec_td_step(s: StatisticsAccumulator, t: StatisticsAccumulator, pts: u64) -> bool {
    if pts == s.cur_tu_time {
        t == s
    } else {
        let delta = pts - s.cur_tu_time;
        let display_rate = s.spec_td_display_rate(pts);
        let w2 = spec_closed_window(s, delta);
        let full = spec_window_full(s, delta) && window_dur(w2) >= 1;
        &&& t.max_display_rate == spec_ratio_max(s.max_display_rate, display_rate)
        &&& t.max_decode_rate == spec_ratio_max(
            s.max_decode_rate,
            spec_rate(s.frame_count as int, delta, s.time_scale_num as int, s.time_scale_den as int),
        )
        &&& t.window@ == w2
        &&& t.max_header_rate == if full {
            spec_ratio_max(
                s.max_header_rate,
                spec_window_rate(
                    window_headers(w2),
                    window_dur(w2),
                    s.time_scale_num as int,
                    s.time_scale_den as int,
                ),
            )
        } else {
            s.max_header_rate
        }
        &&& t.max_bitrate == if full {
            spec_ratio_max(
                s.max_bitrate,
                spec_window_rate(
                    clamp64(window_bytes(w2)) * 8,
                    window_dur(w2),
                    s.time_scale_num as int,
                    s.time_scale_den as int,
                ),
            )
        } else {
            s.max_bitrate
        }
        &&& t.min_cr_level_idx == spec_cr_floor(s, display_rate)
        &&& t.total_show_count == clamp64(s.total_show_count + s.show_count)
        &&& t.show_count == 0
        &&& t.frame_count == 0
        &&& t.header_count == 0
        &&& t.tu_size == 0
        &&& t.min_compressed_ratio is None
        &&& t.seen_frame_header == false
        &&& t.cur_tu_time == s.cur_tu_time
        &&& t.last_tu_time == s.last_tu_time
        &&& t.frame_size == s.frame_size
        &&& t.time_scale_num == s.time_scale_num
        &&& t.time_scale_den == s.time_scale_den
        &&& t.picture_size == s.picture_size
        &&& t.seq_info == s.seq_info
        &&& t.min_cr_level_idx < 32
        &&& t.max_tiles == s.max_tiles
        &&& t.max_tile_cols == s.max_tile_cols
        &&& t.max_tile_list_bitrate == s.max_tile_list_bitrate
        &&& t.max_tile_decode_rate == s.max_tile_decode_rate
        &&& t.last_tile_cols == s.last_tile_cols
        &&& t.last_tile_rows == s.last_tile_rows
    }
}

/// How a frame-header record takes the accumulator from `s` to `t` (once
/// the sequence parameters are known).
///
/// A header-only record closes out the previous frame's compressed-size
/// tally into the running minimum compression ratio and starts a new tally
/// from its own coded size less the fixed 128-byte allowance; a full-frame
/// record adds to the tally in progress.  The first header of a unit
/// advances the tracked unit start to `pts`.  Shown frames raise the show
/// count; everything but a show-existing reference raises the header and
/// decoded-frame counts.  The tiling raises the tile maxima.
pub open spec fn spec_fh_step(
    s: StatisticsAccumulator,
    t: StatisticsAccumulator,
    pts: u64,
    obu_size: u32,
    header_only: bool,
    show_frame: bool,
    show_existing_frame: bool,
    tile_cols: u32,
    tile_rows: u32,
) -> bool {
    &&& t.min_compressed_ratio == if header_only {
        spec_close_frame(s)
    } else {
        s.min_compressed_ratio
    }
    &&& t.frame_size == if header_only {
        obu_size - 128
    } else {
        add_i64_clamp(s.frame_size as int, obu_size as int)
    }
    &&& t.tu_size == clamp64(s.tu_size + obu_size)
    &&& t.last_tu_time == if !s.seen_frame_header {
        s.cur_tu_time
    } else {
        s.last_tu_time
    }
    &&& t.cur_tu_time == if !s.seen_frame_header {
        pts
    } else {
        s.cur_tu_time
    }
    &&& t.seen_frame_header == true
    &&& t.show_count == if show_frame || show_existing_frame {
        clamp64(s.show_count + 1)
    } else {
        s.show_count as int
    }
    &&& t.header_count == if !show_existing_frame {
        clamp64(s.header_count + 1)
    } else {
        s.header_count as int
    }
    &&& t.frame_count == if !show_existing_frame {
        clamp64(s.frame_count + 1)
    } else {
        s.frame_count as int
    }
    &&& t.last_tile_cols == tile_cols
    &&& t.last_tile_rows == tile_rows
    &&& t.max_tile_cols == spec_max64(s.max_tile_cols as int, tile_cols as int)
    &&& t.max_tiles == spec_max64(s.max_tiles as int, tile_cols as int * tile_rows as int)
    &&& t.window == s.window
    &&& t.max_display_rate == s.max_display_rate
    &&& t.max_decode_rate == s.max_decode_rate
    &&& t.max_header_rate == s.max_header_rate
    &&& t.max_bitrate == s.max_bitrate
    &&& t.min_cr_level_idx == s.min_cr_level_idx
    &&& t.max_tile_list_bitrate == s.max_tile_list_bitrate
    &&& t.max_tile_decode_rate == s.max_tile_decode_rate
    &&& t.total_show_count == s.total_show_count
    &&& t.time_scale_num == s.time_scale_num
    &&& t.time_scale_den == s.time_scale_den
    &&& t.picture_size == s.picture_size
    &&& t.seq_info == s.seq_info
}

impl StatisticsAccumulator {
    /// The display rate of the unit closed by a boundary at `pts`.
    pub open spec fn spec_td_display_rate(self, pts: u64) -> Ratio {
        spec_rate(
            self.show_count as int,
            pts - self.cur_tu_time,
            self.time_scale_num as int,
            self.time_scale_den as int,
        )
    }

    /// A temporal-unit boundary event; see `spec_td_step`.
    pub fn ingest_temporal_delimiter(&mut self, pts: u64)
        requires
            old(self).wf(),
            pts >= old(self).cur_tu_time,
        ensures
            final(self).wf(),
            spec_td_step(*old(self), *final(self), pts),
    {
        if pts == self.cur_tu_time {
            return ;
        }
        let num = self.time_scale_num;
        let den = self.time_scale_den;
        let delta: u64 = pts - self.cur_tu_time;
        let display_rate = make_rate(self.show_count, delta, num, den);
        let decode_rate = make_rate(self.frame_count, delta, num, den);
        self.max_display_rate = self.max_display_rate.max(display_rate);
        self.max_decode_rate = self.max_decode_rate.max(decode_rate);
        self.window.push(
            TemporalUnitSample {
                header_count: self.header_count,
                byte_size: self.tu_size,
                duration: delta,
            },
        );
        let (dur1, _, _) = window_sums(&self.window);
        proof {
            vstd::arithmetic::mul::lemma_mul_upper_bound(
                dur1 as int,
                u64::MAX as int,
                den as int,
                u32::MAX as int,
            );
            assert((u64::MAX as int) * (u32::MAX as int) <= u128::MAX) by (nonlinear_arith);
        }
        let window_full = (dur1 as u128) * (den as u128) >= num as u128;
        evict_window(&mut self.window, num, den);
        let (dur2, headers2, bytes2) = window_sums(&self.window);
        if window_full && dur2 >= 1 {
            let header_rate = make_rate(headers2, dur2, num, den);
            let bitrate = make_rate(mul_clamp(bytes2, 8), dur2, num, den);
            self.max_header_rate = self.max_header_rate.max(header_rate);
            self.max_bitrate = self.max_bitrate.max(bitrate);
        }
        match self.seq_info {
            Some(info) => {
                let implied = min_cr_level_index(info.tier, display_rate, self.min_compressed_ratio);
                if implied > self.min_cr_level_idx {
                    self.min_cr_level_idx = implied;
                }
            },
            None => {},
        }
        self.total_show_count = add_clamp(self.total_show_count, self.show_count);
        self.show_count = 0;
        self.frame_count = 0;
        self.header_count = 0;
        self.tu_size = 0;
        self.min_compressed_ratio = None;
        self.seen_frame_header = false;
    }

    /// A frame header (alone, or at the front of a full frame unit).
    ///
    /// A header-only record closes out the previous frame's compressed-size
    /// tally into the running minimum compression ratio and starts a new
    /// tally from its own coded size less the fixed 128-byte allowance; a
    /// full-frame record adds to the tally in progress.  The first header
    /// of a unit advances the tracked unit start to `pts`.  Shown frames
    /// raise the show count; everything but a show-existing reference
    /// raises the header and decoded-frame counts.  The tiling raises the
    /// tile maxima.  A header before any sequence parameters is a
    /// `HeaderOrderViolation` and changes nothing.
    pub fn ingest_frame_header(
        &mut self,
        pts: u64,
        obu_size: u32,
        header_only: bool,
        show_frame: bool,
        show_existing_frame: bool,
        tile_cols: u32,
        tile_rows: u32,
    ) -> (r: Result<(), StreamError>)
        requires
            old(self).wf(),
            pts >= old(self).cur_tu_time,
        ensures
            final(self).wf(),
            match r {
                Ok(_) => old(self).seq_info is Some && spec_fh_step(
                    *old(self),
                    *final(self),
                    pts,
                    obu_size,
                    header_only,
                    show_frame,
                    show_existing_frame,
                    tile_cols,
                    tile_rows,
                ),
                Err(e) => {
                    &&& e == StreamError::HeaderOrderViolation
                    &&& old(self).seq_info is None
                    &&& *final(self) == *old(self)
                },
            },
    {
        let info = match self.seq_info {
            Some(info) => info,
            None => {
                return Err(StreamError::HeaderOrderViolation);
            },
        };
        if header_only {
            if self.frame_size > 0 {
                let factor: u64 = if info.seq_profile == 0 {
                    15
                } else if info.seq_profile == 1 {
                    30
                } else {
                    36
                };
                proof {
                    assert(self.picture_size * factor <= 0xFFFF_FFFFu64 * 36) by (nonlinear_arith)
                        requires
                            self.picture_size <= u32::MAX,
                            factor <= 36,
                    ;
                }
                let prod: u64 = self.picture_size * factor;
                let uncompressed: u64 = prod >> 3u64;
                proof {
                    assert(prod >> 3u64 == prod / 8) by (bit_vector);
                }
                let fresh = Ratio { num: uncompressed, den: self.frame_size as u64 };
                self.min_compressed_ratio = match self.min_compressed_ratio {
                    None => Some(fresh),
                    Some(m) => {
                        if m.le(&fresh) {
                            Some(m)
                        } else {
                            Some(fresh)
                        }
                    },
                };
            }
            self.frame_size = (obu_size as i64) - 128;
        } else {
            self.frame_size = add_clamp_i64_u32(self.frame_size, obu_size);
        }
        self.tu_size = add_clamp(self.tu_size, obu_size as u64);
        if !self.seen_frame_header {
            self.last_tu_time = self.cur_tu_time;
            self.cur_tu_time = pts;
        }
        self.seen_frame_header = true;
        if show_frame || show_existing_frame {
            self.show_count = add_clamp(self.show_count, 1);
        }
        if !show_existing_frame {
            self.header_count = add_clamp(self.header_count, 1);
            self.frame_count = add_clamp(self.frame_count, 1);
        }
        self.last_tile_cols = tile_cols;
        self.last_tile_rows = tile_rows;
        if (tile_cols as u64) > self.max_tile_cols {
            self.max_tile_cols = tile_cols as u64;
        }
        proof {
            vstd::arithmetic::mul::lemma_mul_upper_bound(
                tile_cols as int,
                u32::MAX as int,
                tile_rows as int,
                u32::MAX as int,
            );
            assert((u32::MAX as int) * (u32::MAX as int) <= u64::MAX) by (nonlinear_arith);
        }
        let tiles = (tile_cols as u64) * (tile_rows as u64);
        if tiles > self.max_tiles {
            self.max_tiles = tiles;
        }
        Ok(())
    }
}

/// One parsed record of the stream, as the external unit parser hands it
/// to the accumulator.
#[derive(Clone, Copy, Debug, PartialEq, Eq, Structural)]
pub enum StreamEvent {
    /// A temporal-delimiter unit at a presentation time.
    TemporalDelimiter { pts: u64 },
    /// A decoded frame header (alone when `header_only`, or leading a full
    /// frame unit), with its coded size, its display flags and its tiling.
    FrameHeader {
        pts: u64,
        obu_size: u32,
        header_only: bool,
        show_frame: bool,
        show_existing_frame: bool,
        tile_cols: u32,
        tile_rows: u32,
    },
    /// A metadata or tile-group unit of the given coded size.
    Payload { obu_size: u32 },
    /// A tile list: its summed tile bytes and its tile count.
    TileList { bytes_per_tile_list: u64, tile_count: u32 },
    /// Decoded sequence parameters: the profile and the tier.
    SequenceHeader { seq_profile: u8, tier: Tier },
}

/// The presentation time an event carries, where it carries one.
pub open spec fn spec_event_pts(event: StreamEvent) -> Option<u64> {
    match event {
        StreamEvent::TemporalDelimiter { pts } => Some(pts),
        StreamEvent::FrameHeader { pts, .. } => Some(pts),
        _ => None,
    }
}

impl StatisticsAccumulator {
    /// Consume one parsed record, dispatching on its kind; the per-event
    /// step functions state each transition exactly.  Presentation times
    /// never run backwards: the external unit parser walks the stream
    /// forward.
    pub fn ingest(&mut self, event: StreamEvent) -> (r: Result<(), StreamError>)
        requires
            old(self).wf(),
            spec_event_pts(event) is Some ==> spec_event_pts(event)->0 >= old(
                self,
            ).cur_tu_time,
        ensures
            final(self).wf(),
            match event {
                StreamEvent::TemporalDelimiter { pts } => r is Ok && spec_td_step(
                    *old(self),
                    *final(self),
                    pts,
                ),
                StreamEvent::FrameHeader {
                    pts,
                    obu_size,
                    header_only,
                    show_frame,
                    show_existing_frame,
                    tile_cols,
                    tile_rows,
                } => match r {
                    Ok(_) => old(self).seq_info is Some && spec_fh_step(
                        *old(self),
                        *final(self),
                        pts,
                        obu_size,
                        header_only,
                        show_frame,
                        show_existing_frame,
                        tile_cols,
                        tile_rows,
                    ),
                    Err(e) => {
                        &&& e == StreamError::HeaderOrderViolation
                        &&& old(self).seq_info is None
                        &&& *final(self) == *old(self)
                    },
                },
                StreamEvent::Payload { obu_size } => r is Ok && *final(self)
                    == (StatisticsAccumulator {
                    frame_size: add_i64_clamp(old(self).frame_size as int, obu_size as int) as i64,
                    tu_size: clamp64(old(self).tu_size + obu_size) as u64,
                    ..*old(self)
                }),
                StreamEvent::TileList { bytes_per_tile_list, tile_count } => r is Ok && *final(self)
                    == (StatisticsAccumulator {
                    max_tile_list_bitrate: spec_max64(
                        old(self).max_tile_list_bitrate as int,
                        clamp64(clamp64(bytes_per_tile_list * 8) * 180),
                    ) as u64,
                    max_tile_decode_rate: spec_tile_decode_max(*old(self), tile_count),
                    ..*old(self)
                }),
                StreamEvent::SequenceHeader { seq_profile, tier } => r is Ok && *final(self)
                    == (StatisticsAccumulator {
                    seq_info: Some(SequenceInfo { seq_profile, tier }),
                    ..*old(self)
                }),
            },
    {
        match event {
            StreamEvent::TemporalDelimiter { pts } => {
                self.ingest_temporal_delimiter(pts);
                Ok(())
            },
            StreamEvent::FrameHeader {
                pts,
                obu_size,
                header_only,
                show_frame,
                show_existing_frame,
                tile_cols,
                tile_rows,
            } => self.ingest_frame_header(
                pts,
                obu_size,
                header_only,
                show_frame,
                show_existing_frame,
                tile_cols,
                tile_rows,
            ),
            StreamEvent::Payload { obu_size } => {
                self.ingest_payload(obu_size);
                Ok(())
            },
            StreamEvent::TileList { bytes_per_tile_list, tile_count } => {
                self.ingest_tile_list(bytes_per_tile_list, tile_count);
                Ok(())
            },
            StreamEvent::SequenceHeader { seq_profile, tier } => {
                self.ingest_sequence_header(seq_profile, tier);
                Ok(())
            },
        }
    }
}

/// A rational rate doubled, saturating.
pub open spec fn spec_ratio_double(r: Ratio) -> Ratio {
    Ratio { num: clamp64(r.num * 2) as u64, den: r.den }
}

/// `x` clamped to `u16`.
pub open spec fn spec_clamp_u16(x: int) -> u16 {
    if x > u16::MAX {
        u16::MAX
    } else {
        x as u16
    }
}

/// `x` clamped to `u8`.
pub open spec fn spec_clamp_u8(x: int) -> u8 {
    if x > u8::MAX {
        u8::MAX
    } else {
        x as u8
    }
}

/// How `close_final_unit` takes the accumulator from `s` to `t`: the same
/// unit-closing computation as a temporal-unit boundary, with the closing
/// duration clamped from below by the final unit start (so a single-unit
/// stream never divides by zero), the tile decode-rate maximum doubled into
/// the decode rate, and the window normalization replaced by a unity factor
/// when the final window spans less than one time-scale unit.
pub open spec fn spec_closed(s: StatisticsAccumulator, t: StatisticsAccumulator) -> bool {
    let d = spec_max64(s.cur_tu_time - s.last_tu_time, s.cur_tu_time as int);
    let has_rate = d >= 1;
    let display_rate = spec_rate(
        s.show_count as int,
        d,
        s.time_scale_num as int,
        s.time_scale_den as int,
    );
    let decode_base = if has_rate {
        spec_ratio_max(
            s.max_decode_rate,
            spec_rate(s.frame_count as int, d, s.time_scale_num as int, s.time_scale_den as int),
        )
    } else {
        s.max_decode_rate
    };
    let w1 = s.window@.push(spec_tu_sample(s, s.cur_tu_time - s.last_tu_time));
    let full = clamp64(window_dur(w1)) * s.time_scale_den >= s.time_scale_num;
    let w2 = spec_evict(w1, s.time_scale_num as int, s.time_scale_den as int);
    let header_rate = if full {
        spec_window_rate(
            window_headers(w2),
            window_dur(w1),
            s.time_scale_num as int,
            s.time_scale_den as int,
        )
    } else {
        Ratio { num: clamp64(window_headers(w2)) as u64, den: 1u64 }
    };
    let bitrate = if full {
        spec_window_rate(
            clamp64(window_bytes(w2)) * 8,
            window_dur(w1),
            s.time_scale_num as int,
            s.time_scale_den as int,
        )
    } else {
        Ratio { num: clamp64(clamp64(window_bytes(w2)) * 8) as u64, den: 1u64 }
    };
    &&& t.max_display_rate == if has_rate {
        spec_ratio_max(s.max_display_rate, display_rate)
    } else {
        s.max_display_rate
    }
    &&& t.max_decode_rate == spec_ratio_max(decode_base, spec_ratio_double(s.max_tile_decode_rate))
    &&& t.window@ == w2
    &&& t.max_header_rate == spec_ratio_max(s.max_header_rate, header_rate)
    &&& t.max_bitrate == spec_ratio_max(s.max_bitrate, bitrate)
    &&& t.min_cr_level_idx == if has_rate {
        spec_cr_floor(s, display_rate)
    } else {
        s.min_cr_level_idx as int
    }
    &&& t.total_show_count == clamp64(s.total_show_count + s.show_count)
    &&& t.show_count == s.show_count
    &&& t.frame_count == s.frame_count
    &&& t.header_count == s.header_count
    &&& t.tu_size == s.tu_size
    &&& t.frame_size == s.frame_size
    &&& t.seen_frame_header == s.seen_frame_header
    &&& t.min_compressed_ratio == s.min_compressed_ratio
    &&& t.cur_tu_time == s.cur_tu_time
    &&& t.last_tu_time == s.last_tu_time
    &&& t.time_scale_num == s.time_scale_num
    &&& t.time_scale_den == s.time_scale_den
    &&& t.picture_size == s.picture_size
    &&& t.seq_info == s.seq_info
    &&& t.max_tiles == s.max_tiles
    &&& t.max_tile_cols == s.max_tile_cols
    &&& t.max_tile_list_bitrate == s.max_tile_list_bitrate
    &&& t.max_tile_decode_rate == s.max_tile_decode_rate
    &&& t.last_tile_cols == s.last_tile_cols
    &&& t.last_tile_rows == s.last_tile_rows
}

/// The context that finalization hands the level selector: the running
/// rational rate maxima scaled by the picture area (for the display and
/// decode rates) and rounded up into absolute integer quantities, with the
/// frame dimensions taken from the sequence parameters.
pub open spec fn spec_context_of(
    s: StatisticsAccumulator,
    tier: Tier,
    max_frame_width: u32,
    max_frame_height: u32,
) -> SequenceContext {
    SequenceContext {
        tier,
        pic_size: (
            spec_clamp_u16(max_frame_width as int),
            spec_clamp_u16(max_frame_height as int),
        ),
        display_rate: clamp64(
            ceil_div(s.max_display_rate.num * s.picture_size, s.max_display_rate.den as int),
        ) as u64,
        decode_rate: clamp64(
            ceil_div(s.max_decode_rate.num * s.picture_size, s.max_decode_rate.den as int),
        ) as u64,
        header_rate: spec_clamp_u16(
            clamp64(ceil_div(s.max_header_rate.num as int, s.max_header_rate.den as int)),
        ),
        bitrate: clamp64(
            ceil_div(s.max_bitrate.num as int, s.max_bitrate.den as int),
        ) as u64,
        tiles: spec_clamp_u8(s.max_tiles as int),
        tile_cols: spec_clamp_u8(s.max_tile_cols as int),
    }
}

fn clamp_u16(x: u64) -> (r: u16)
    ensures
        r == spec_clamp_u16(x as int),
{
    if x > u16::MAX as u64 {
        u16::MAX
    } else {
        x as u16
    }
}

fn clamp_u8(x: u64) -> (r: u8)
    ensures
        r == spec_clamp_u8(x as int),
{
    if x > u8::MAX as u64 {
        u8::MAX
    } else {
        x as u8
    }
}

/// `ceil(num / den)`, saturating at `u64::MAX`.
fn ratio_ceil_clamp(r: Ratio) -> (v: u64)
    requires
        r.wf(),
    ensures
        v == clamp64(ceil_div(r.num as int, r.den as int)),
{
    let q = ((r.num as u128) + (r.den as u128) - 1) / (r.den as u128);
    if q > u64::MAX as u128 {
        u64::MAX
    } else {
        q as u64
    }
}

impl StatisticsAccumulator {
    /// Close the final temporal unit at end of stream.
    ///
    /// The closing duration is clamped from below by the final unit start
    /// (the inverse of the nominal frame rate scaled by the final
    /// timestamp), so a single-unit stream never divides by zero; a stream
    /// whose final unit start is time zero measures no final-unit rates at
    /// all.  The window normalization applies only when the final window
    /// spans a full time-scale unit; a shorter stream's rate per second is
    /// its total rate, taken with a unity factor and no extrapolation.
    pub fn close_final_unit(&mut self)
        requires
            old(self).wf(),
        ensures
            final(self).wf(),
            spec_closed(*old(self), *final(self)),
    {
        let num = self.time_scale_num;
        let den = self.time_scale_den;
        let raw: u64 = self.cur_tu_time - self.last_tu_time;
        let d: u64 = if raw >= self.cur_tu_time {
            raw
        } else {
            self.cur_tu_time
        };
        let mut display_rate = Ratio { num: 0, den: 1 };
        if d >= 1 {
            display_rate = make_rate(self.show_count, d, num, den);
            let decode_rate = make_rate(self.frame_count, d, num, den);
            self.max_display_rate = self.max_display_rate.max(display_rate);
            self.max_decode_rate = self.max_decode_rate.max(decode_rate);
        }
        let doubled = Ratio {
            num: mul_clamp(self.max_tile_decode_rate.num, 2),
            den: self.max_tile_decode_rate.den,
        };
        self.max_decode_rate = self.max_decode_rate.max(doubled);
        self.window.push(
            TemporalUnitSample {
                header_count: self.header_count,
                byte_size: self.tu_size,
                duration: raw,
            },
        );
        let (dur1, _, _) = window_sums(&self.window);
        proof {
            vstd::arithmetic::mul::lemma_mul_upper_bound(
                dur1 as int,
                u64::MAX as int,
                den as int,
                u32::MAX as int,
            );
            assert((u64::MAX as int) * (u32::MAX as int) <= u128::MAX) by (nonlinear_arith);
        }
        let full = (dur1 as u128) * (den as u128) >= num as u128;
        evict_window(&mut self.window, num, den);
        let (_, headers2, bytes2) = window_sums(&self.window);
        let header_rate: Ratio;
        let bitrate: Ratio;
        if full {
            proof {
                assert(dur1 >= 1) by (nonlinear_arith)
                    requires
                        dur1 as int * den as int >= num,
                        num >= 1,
                        den >= 1,
                ;
            }
            header_rate = make_rate(headers2, dur1, num, den);
            bitrate = make_rate(mul_clamp(bytes2, 8), dur1, num, den);
        } else {
            header_rate = Ratio { num: headers2, den: 1 };
            bitrate = Ratio { num: mul_clamp(bytes2, 8), den: 1 };
        }
        self.max_header_rate = self.max_header_rate.max(header_rate);
        self.max_bitrate = self.max_bitrate.max(bitrate);
        if d >= 1 {
            match self.seq_info {
                Some(info) => {
                    let implied = min_cr_level_index(
                        info.tier,
                        display_rate,
                        self.min_compressed_ratio,
                    );
                    if implied > self.min_cr_level_idx {
                        self.min_cr_level_idx = implied;
                    }
                },
                None => {},
            }
        }
        self.total_show_count = add_clamp(self.total_show_count, self.show_count);
    }

    /// The finalized context: the rational rate maxima scaled by the
    /// picture area and rounded up into the integer quantities the level
    /// table compares against.  Returns the context and the level floor the
    /// compression-ratio model imposes.
    pub fn build_context(&self, tier: Tier, max_frame_width: u32, max_frame_height: u32) -> (r: (
        SequenceContext,
        u8,
    ))
        requires
            self.wf(),
        ensures
            r.0 == spec_context_of(*self, tier, max_frame_width, max_frame_height),
            r.1 == self.min_cr_level_idx,
            r.1 < 32,
    {
        let width16 = if max_frame_width > u16::MAX as u32 {
            u16::MAX
        } else {
            max_frame_width as u16
        };
        let height16 = if max_frame_height > u16::MAX as u32 {
            u16::MAX
        } else {
            max_frame_height as u16
        };
        let context = SequenceContext {
            tier,
            pic_size: (width16, height16),
            display_rate: ceil_mul_div_clamp(
                self.max_display_rate.num,
                self.picture_size,
                self.max_display_rate.den,
            ),
            decode_rate: ceil_mul_div_clamp(
                self.max_decode_rate.num,
                self.picture_size,
                self.max_decode_rate.den,
            ),
            header_rate: clamp_u16(ratio_ceil_clamp(self.max_header_rate)),
            bitrate: ratio_ceil_clamp(self.max_bitrate),
            tiles: clamp_u8(self.max_tiles),
            tile_cols: clamp_u8(self.max_tile_cols),
        };
        (context, self.min_cr_level_idx)
    }

    /// Finalize the pass: close the final unit and derive the context.
    ///
    /// A stream that declares more than one operating point is rejected
    /// here, before any output is produced.
    pub fn finalize(
        &mut self,
        tier: Tier,
        operating_points_cnt: u8,
        max_frame_width: u32,
        max_frame_height: u32,
    ) -> (r: Result<(SequenceContext, u8), StreamError>)
        requires
            old(self).wf(),
        ensures
            final(self).wf(),
            match r {
                Ok(out) => {
                    &&& operating_points_cnt == 1
                    &&& spec_closed(*old(self), *final(self))
                    &&& out.0 == spec_context_of(
                        *final(self),
                        tier,
                        max_frame_width,
                        max_frame_height,
                    )
                    &&& out.1 == final(self).min_cr_level_idx
                    &&& out.1 < 32
                },
                Err(e) => {
                    &&& e == StreamError::UnsupportedFeature
                    &&& operating_points_cnt != 1
                    &&& *final(self) == *old(self)
                },
            },
    {
        if operating_points_cnt != 1 {
            return Err(StreamError::UnsupportedFeature);
        }
        self.close_final_unit();
        Ok(self.build_context(tier, max_frame_width, max_frame_height))
    }
}

} // verus!
