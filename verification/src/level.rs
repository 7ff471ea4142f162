//! The conformance-level catalogue and the level-selection algorithm.
//!
//! A level is an index in `[0, 31]` that either carries a record of resource
//! limits or is a reserved placeholder.  Index 31 is the sentinel "maximum
//! parameters" level: each of its limits is the largest value of its type, so
//! it satisfies every sequence context and selection always terminates.

use vstd::prelude::*;

verus! {

use vstd::arithmetic::mul::lemma_mul_upper_bound;
use vstd::string::StringExecFns;

/// Main or High; High raises the bitrate bounds above level index 7.
#[derive(Clone, Copy, Debug, PartialEq, Eq, Structural)]
pub enum Tier {
    Main,
    High,
}

impl Default for Tier {
    /// Streams that do not declare a tier are Main tier.
    fn default() -> (r: Tier)
        ensures
            r == Tier::Main,
    {
        Tier::Main
    }
}

/// The resource limits of one valid conformance level.
///
/// Bitrate caps are in bits per second (the governing table states them in
/// megabits per second; `1_500_000` here is 1.5 Mbps).
#[derive(Clone, Copy, Debug, PartialEq, Eq, Structural)]
pub struct LevelLimits {
    pub max_pic_size: u32,
    pub max_h_size: u16,
    pub max_v_size: u16,
    pub max_display_rate: u64,
    pub max_decode_rate: u64,
    pub max_header_rate: u16,
    pub main_bitrate: u64,
    pub high_bitrate: u64,
    pub main_cr: u8,
    pub high_cr: u8,
    pub max_tiles: u8,
    pub max_tile_cols: u8,
}

/// A level slot of the catalogue: either a valid level or a reserved index.
#[derive(Clone, Copy, Debug, PartialEq, Eq, Structural)]
pub enum LevelInfo {
    Valid(LevelLimits),
    Reserved,
}

/// A conformance level: an index in `[0, 31]` with its catalogue entry.
#[derive(Clone, Copy, Debug, PartialEq, Eq, Structural)]
pub struct Level {
    pub index: u8,
    pub info: LevelInfo,
}

/// The catalogue: the limits of level `i`, or `None` when `i` is reserved.
pub open spec fn spec_limits(i: int) -> Option<LevelLimits> {
    if i == 0 {
        Some(LevelLimits {
            max_pic_size: 147456,
            max_h_size: 2048,
            max_v_size: 1152,
            max_display_rate: 4423680,
            max_decode_rate: 5529600,
            max_header_rate: 150,
            main_bitrate: 1_500_000,
            high_bitrate: 0,
            main_cr: 2,
            high_cr: 0,
            max_tiles: 8,
            max_tile_cols: 4,
        })
    } else if i == 1 {
        Some(LevelLimits {
            max_pic_size: 278784,
            max_h_size: 2816,
            max_v_size: 1584,
            max_display_rate: 8363520,
            max_decode_rate: 10454400,
            max_header_rate: 150,
            main_bitrate: 3_000_000,
            high_bitrate: 0,
            main_cr: 2,
            high_cr: 0,
            max_tiles: 8,
            max_tile_cols: 4,
        })
    } else if i == 4 {
        Some(LevelLimits {
            max_pic_size: 665856,
            max_h_size: 4352,
            max_v_size: 2448,
            max_display_rate: 19975680,
            max_decode_rate: 24969600,
            max_header_rate: 150,
            main_bitrate: 6_000_000,
            high_bitrate: 0,
            main_cr: 2,
            high_cr: 0,
            max_tiles: 16,
            max_tile_cols: 6,
        })
    } else if i == 5 {
        Some(LevelLimits {
            max_pic_size: 1065024,
            max_h_size: 5504,
            max_v_size: 3096,
            max_display_rate: 31950720,
            max_decode_rate: 39938400,
            max_header_rate: 150,
            main_bitrate: 10_000_000,
            high_bitrate: 0,
            main_cr: 2,
            high_cr: 0,
            max_tiles: 8,
            max_tile_cols: 4,
        })
    } else if i == 8 {
        Some(LevelLimits {
            max_pic_size: 2359296,
            max_h_size: 6144,
            max_v_size: 3456,
            max_display_rate: 70778880,
            max_decode_rate: 77856768,
            max_header_rate: 300,
            main_bitrate: 12_000_000,
            high_bitrate: 30_000_000,
            main_cr: 4,
            high_cr: 4,
            max_tiles: 32,
            max_tile_cols: 8,
        })
    } else if i == 9 {
        Some(LevelLimits {
            max_pic_size: 2359296,
            max_h_size: 6144,
            max_v_size: 3456,
            max_display_rate: 141557760,
            max_decode_rate: 155713536,
            max_header_rate: 300,
            main_bitrate: 20_000_000,
            high_bitrate: 50_000_000,
            main_cr: 4,
            high_cr: 4,
            max_tiles: 32,
            max_tile_cols: 8,
        })
    } else if i == 12 {
        Some(LevelLimits {
            max_pic_size: 8912896,
            max_h_size: 8192,
            max_v_size: 4352,
            max_display_rate: 267386880,
            max_decode_rate: 273715200,
            max_header_rate: 300,
            main_bitrate: 30_000_000,
            high_bitrate: 100_000_000,
            main_cr: 6,
            high_cr: 4,
            max_tiles: 64,
            max_tile_cols: 8,
        })
    } else if i == 13 {
        Some(LevelLimits {
            max_pic_size: 8912896,
            max_h_size: 8192,
            max_v_size: 4352,
            max_display_rate: 534773760,
            max_decode_rate: 547430400,
            max_header_rate: 300,
            main_bitrate: 40_000_000,
            high_bitrate: 160_000_000,
            main_cr: 8,
            high_cr: 4,
            max_tiles: 64,
            max_tile_cols: 8,
        })
    } else if i == 14 {
        Some(LevelLimits {
            max_pic_size: 8912896,
            max_h_size: 8192,
            max_v_size: 4352,
            max_display_rate: 1069547520,
            max_decode_rate: 1094860800,
            max_header_rate: 300,
            main_bitrate: 60_000_000,
            high_bitrate: 240_000_000,
            main_cr: 8,
            high_cr: 4,
            max_tiles: 64,
            max_tile_cols: 8,
        })
    } else if i == 15 {
        Some(LevelLimits {
            max_pic_size: 8912896,
            max_h_size: 8192,
            max_v_size: 4352,
            max_display_rate: 1069547520,
            max_decode_rate: 1176502272,
            max_header_rate: 300,
            main_bitrate: 60_000_000,
            high_bitrate: 240_000_000,
            main_cr: 8,
            high_cr: 4,
            max_tiles: 64,
            max_tile_cols: 8,
        })
    } else if i == 16 {
        Some(LevelLimits {
            max_pic_size: 35651584,
            max_h_size: 16384,
            max_v_size: 8704,
            max_display_rate: 1069547520,
            max_decode_rate: 1176502272,
            max_header_rate: 300,
            main_bitrate: 60_000_000,
            high_bitrate: 240_000_000,
            main_cr: 8,
            high_cr: 4,
            max_tiles: 128,
            max_tile_cols: 16,
        })
    } else if i == 17 {
        Some(LevelLimits {
            max_pic_size: 35651584,
            max_h_size: 16384,
            max_v_size: 8704,
            max_display_rate: 2139095040,
            max_decode_rate: 2189721600,
            max_header_rate: 300,
            main_bitrate: 100_000_000,
            high_bitrate: 480_000_000,
            main_cr: 8,
            high_cr: 4,
            max_tiles: 128,
            max_tile_cols: 16,
        })
    } else if i == 18 {
        Some(LevelLimits {
            max_pic_size: 35651584,
            max_h_size: 16384,
            max_v_size: 8704,
            max_display_rate: 4278190080,
            max_decode_rate: 4379443200,
            max_header_rate: 300,
            main_bitrate: 160_000_000,
            high_bitrate: 800_000_000,
            main_cr: 8,
            high_cr: 4,
            max_tiles: 128,
            max_tile_cols: 16,
        })
    } else if i == 19 {
        Some(LevelLimits {
            max_pic_size: 35651584,
            max_h_size: 16384,
            max_v_size: 8704,
            max_display_rate: 4278190080,
            max_decode_rate: 4706009088,
            max_header_rate: 300,
            main_bitrate: 160_000_000,
            high_bitrate: 800_000_000,
            main_cr: 8,
            high_cr: 4,
            max_tiles: 128,
            max_tile_cols: 16,
        })
    } else if i == 31 {
        Some(LevelLimits {
            max_pic_size: u32::MAX,
            max_h_size: u16::MAX,
            max_v_size: u16::MAX,
            max_display_rate: u64::MAX,
            max_decode_rate: u64::MAX,
            max_header_rate: u16::MAX,
            main_bitrate: u64::MAX,
            high_bitrate: u64::MAX,
            main_cr: u8::MAX,
            high_cr: u8::MAX,
            max_tiles: u8::MAX,
            max_tile_cols: u8::MAX,
        })
    } else {
        None
    }

}

/// Whether index `i` names a valid (non-reserved) level.
pub open spec fn spec_is_valid(i: int) -> bool {
    spec_limits(i) is Some
}

/// The limits of level `i`, or `None` when `i` is reserved or out of range.
pub fn limits(i: u8) -> (r: Option<LevelLimits>)
    ensures
        r == spec_limits(i as int),
{
    match i {
        0u8 => Some(LevelLimits {
            max_pic_size: 147456,
            max_h_size: 2048,
            max_v_size: 1152,
            max_display_rate: 4423680,
            max_decode_rate: 5529600,
            max_header_rate: 150,
            main_bitrate: 1_500_000,
            high_bitrate: 0,
            main_cr: 2,
            high_cr: 0,
            max_tiles: 8,
            max_tile_cols: 4,
        }),
        1u8 => Some(LevelLimits {
            max_pic_size: 278784,
            max_h_size: 2816,
            max_v_size: 1584,
            max_display_rate: 8363520,
            max_decode_rate: 10454400,
            max_header_rate: 150,
            main_bitrate: 3_000_000,
            high_bitrate: 0,
            main_cr: 2,
            high_cr: 0,
            max_tiles: 8,
            max_tile_cols: 4,
        }),
        4u8 => Some(LevelLimits {
            max_pic_size: 665856,
            max_h_size: 4352,
            max_v_size: 2448,
            max_display_rate: 19975680,
            max_decode_rate: 24969600,
            max_header_rate: 150,
            main_bitrate: 6_000_000,
            high_bitrate: 0,
            main_cr: 2,
            high_cr: 0,
            max_tiles: 16,
            max_tile_cols: 6,
        }),
        5u8 => Some(LevelLimits {
            max_pic_size: 1065024,
            max_h_size: 5504,
            max_v_size: 3096,
            max_display_rate: 31950720,
            max_decode_rate: 39938400,
            max_header_rate: 150,
            main_bitrate: 10_000_000,
            high_bitrate: 0,
            main_cr: 2,
            high_cr: 0,
            max_tiles: 8,
            max_tile_cols: 4,
        }),
        8u8 => Some(LevelLimits {
            max_pic_size: 2359296,
            max_h_size: 6144,
            max_v_size: 3456,
            max_display_rate: 70778880,
            max_decode_rate: 77856768,
            max_header_rate: 300,
            main_bitrate: 12_000_000,
            high_bitrate: 30_000_000,
            main_cr: 4,
            high_cr: 4,
            max_tiles: 32,
            max_tile_cols: 8,
        }),
        9u8 => Some(LevelLimits {
            max_pic_size: 2359296,
            max_h_size: 6144,
            max_v_size: 3456,
            max_display_rate: 141557760,
            max_decode_rate: 155713536,
            max_header_rate: 300,
            main_bitrate: 20_000_000,
            high_bitrate: 50_000_000,
            main_cr: 4,
            high_cr: 4,
            max_tiles: 32,
            max_tile_cols: 8,
        }),
        12u8 => Some(LevelLimits {
            max_pic_size: 8912896,
            max_h_size: 8192,
            max_v_size: 4352,
            max_display_rate: 267386880,
            max_decode_rate: 273715200,
            max_header_rate: 300,
            main_bitrate: 30_000_000,
            high_bitrate: 100_000_000,
            main_cr: 6,
            high_cr: 4,
            max_tiles: 64,
            max_tile_cols: 8,
        }),
        13u8 => Some(LevelLimits {
            max_pic_size: 8912896,
            max_h_size: 8192,
            max_v_size: 4352,
            max_display_rate: 534773760,
            max_decode_rate: 547430400,
            max_header_rate: 300,
            main_bitrate: 40_000_000,
            high_bitrate: 160_000_000,
            main_cr: 8,
            high_cr: 4,
            max_tiles: 64,
            max_tile_cols: 8,
        }),
        14u8 => Some(LevelLimits {
            max_pic_size: 8912896,
            max_h_size: 8192,
            max_v_size: 4352,
            max_display_rate: 1069547520,
            max_decode_rate: 1094860800,
            max_header_rate: 300,
            main_bitrate: 60_000_000,
            high_bitrate: 240_000_000,
            main_cr: 8,
            high_cr: 4,
            max_tiles: 64,
            max_tile_cols: 8,
        }),
        15u8 => Some(LevelLimits {
            max_pic_size: 8912896,
            max_h_size: 8192,
            max_v_size: 4352,
            max_display_rate: 1069547520,
            max_decode_rate: 1176502272,
            max_header_rate: 300,
            main_bitrate: 60_000_000,
            high_bitrate: 240_000_000,
            main_cr: 8,
            high_cr: 4,
            max_tiles: 64,
            max_tile_cols: 8,
        }),
        16u8 => Some(LevelLimits {
            max_pic_size: 35651584,
            max_h_size: 16384,
            max_v_size: 8704,
            max_display_rate: 1069547520,
            max_decode_rate: 1176502272,
            max_header_rate: 300,
            main_bitrate: 60_000_000,
            high_bitrate: 240_000_000,
            main_cr: 8,
            high_cr: 4,
            max_tiles: 128,
            max_tile_cols: 16,
        }),
        17u8 => Some(LevelLimits {
            max_pic_size: 35651584,
            max_h_size: 16384,
            max_v_size: 8704,
            max_display_rate: 2139095040,
            max_decode_rate: 2189721600,
            max_header_rate: 300,
            main_bitrate: 100_000_000,
            high_bitrate: 480_000_000,
            main_cr: 8,
            high_cr: 4,
            max_tiles: 128,
            max_tile_cols: 16,
        }),
        18u8 => Some(LevelLimits {
            max_pic_size: 35651584,
            max_h_size: 16384,
            max_v_size: 8704,
            max_display_rate: 4278190080,
            max_decode_rate: 4379443200,
            max_header_rate: 300,
            main_bitrate: 160_000_000,
            high_bitrate: 800_000_000,
            main_cr: 8,
            high_cr: 4,
            max_tiles: 128,
            max_tile_cols: 16,
        }),
        19u8 => Some(LevelLimits {
            max_pic_size: 35651584,
            max_h_size: 16384,
            max_v_size: 8704,
            max_display_rate: 4278190080,
            max_decode_rate: 4706009088,
            max_header_rate: 300,
            main_bitrate: 160_000_000,
            high_bitrate: 800_000_000,
            main_cr: 8,
            high_cr: 4,
            max_tiles: 128,
            max_tile_cols: 16,
        }),
        31u8 => Some(LevelLimits {
            max_pic_size: u32::MAX,
            max_h_size: u16::MAX,
            max_v_size: u16::MAX,
            max_display_rate: u64::MAX,
            max_decode_rate: u64::MAX,
            max_header_rate: u16::MAX,
            main_bitrate: u64::MAX,
            high_bitrate: u64::MAX,
            main_cr: u8::MAX,
            high_cr: u8::MAX,
            max_tiles: u8::MAX,
            max_tile_cols: u8::MAX,
        }),
        _ => None,
    }
}

impl Level {
    /// A `Level` is well formed when its entry agrees with the catalogue.
    pub open spec fn wf(self) -> bool {
        &&& self.index < 32
    &&& (match self.info {
            LevelInfo::Valid(l) => spec_limits(self.index as int) == Some(l),
            LevelInfo::Reserved => spec_limits(self.index as int) is None,
        })
    }

    /// The catalogue level at `index`.
    pub fn new(index: u8) -> (r: Level)
        requires
            index < 32,
        ensures
            r.index == index,
            r.wf(),
    {
        match limits(index) {
            Some(l) => Level { index, info: LevelInfo::Valid(l) },
            None => Level { index, info: LevelInfo::Reserved },
        }
    }

    /// Whether this level is a valid (non-reserved) catalogue entry.
    pub fn is_valid(&self) -> (r: bool)
        requires
            self.wf(),
        ensures
            r == spec_is_valid(self.index as int),
    {
        match self.info {
            LevelInfo::Valid(_) => true,
            LevelInfo::Reserved => false,
        }
    }
}

/// The decimal digit character for `d` in `[0, 9]`.
pub open spec fn spec_digit_char(d: int) -> char {
    if d == 0 {
        '0'
    } else if d == 1 {
        '1'
    } else if d == 2 {
        '2'
    } else if d == 3 {
        '3'
    } else if d == 4 {
        '4'
    } else if d == 5 {
        '5'
    } else if d == 6 {
        '6'
    } else if d == 7 {
        '7'
    } else if d == 8 {
        '8'
    } else {
        '9'
    }
}

/// The decimal digits of an index in `[0, 31]`.
pub open spec fn spec_index_digits(i: int) -> Seq<char> {
    if i >= 10 {
        seq![spec_digit_char(i / 10), spec_digit_char(i % 10)]
    } else {
        seq![spec_digit_char(i)]
    }
}

/// The rendering of level index `i`: "major.minor (index)" for valid levels,
/// where major is `2 + (i >> 2)` and minor is `i & 3`; "Reserved" for
/// reserved indices below 31; "Maximum parameters" for the sentinel.
pub open spec fn spec_display_name(i: int) -> Seq<char> {
    if i == 31 {
        "Maximum parameters"@
    } else if !spec_is_valid(i) {
        "Reserved"@
    } else {
        seq![spec_digit_char(2 + i / 4), '.', spec_digit_char(i % 4), ' ', '(']
            + spec_index_digits(i) + seq![')']
    }
}

fn digit_str(d: u8) -> (r: &'static str)
    requires
        d < 10,
    ensures
        r@ == seq![spec_digit_char(d as int)],
{
    let r: &'static str = match d {
        0u8 => "0",
        1u8 => "1",
        2u8 => "2",
        3u8 => "3",
        4u8 => "4",
        5u8 => "5",
        6u8 => "6",
        7u8 => "7",
        8u8 => "8",
        _ => "9",
    };
    proof {
        reveal_strlit("0");
        reveal_strlit("1");
        reveal_strlit("2");
        reveal_strlit("3");
        reveal_strlit("4");
        reveal_strlit("5");
        reveal_strlit("6");
        reveal_strlit("7");
        reveal_strlit("8");
        reveal_strlit("9");
        assert(r@ =~= seq![spec_digit_char(d as int)]);
    }
    r
}

impl Level {
    /// Render this level for display.
    pub fn display_name(&self) -> (r: String)
        requires
            self.wf(),
        ensures
            r@ == spec_display_name(self.index as int),
    {
        if self.index == 31 {
            return String::from_str("Maximum parameters");
        }
        let valid = match self.info {
            LevelInfo::Valid(_) => true,
            LevelInfo::Reserved => false,
        };
        if !valid {
            return String::from_str("Reserved");
        }
        let mut s = String::new();
        s.append(digit_str(2 + self.index / 4));
        s.append(".");
        s.append(digit_str(self.index % 4));
        s.append(" (");
        if self.index >= 10 {
            s.append(digit_str(self.index / 10));
            s.append(digit_str(self.index % 10));
        } else {
            s.append(digit_str(self.index));
        }
        s.append(")");
        proof {
            reveal_strlit(".");
            reveal_strlit(" (");
            reveal_strlit(")");
            assert(s@ =~= spec_display_name(self.index as int));
        }
        s
    }
}

/// The quantities of one analyzed stream that the level limits are checked
/// against.
///
/// Rates are absolute integer quantities (luma samples per second, frame
/// headers per second); `bitrate` is in bits per second, rounded up from the
/// exact rational rate the accumulator derives.
#[derive(Clone, Copy, Debug)]
pub struct SequenceContext {
    pub tier: Tier,
    pub pic_size: (u16, u16),
    pub display_rate: u64,
    pub decode_rate: u64,
    pub header_rate: u16,
    pub bitrate: u64,
    pub tiles: u8,
    pub tile_cols: u8,
}

/// Whether the limits of level `index` accommodate every quantity of `ctx`.
///
/// The bitrate bound is the Main-tier one whenever the stream's tier is Main
/// or the index is at most 7: only Main tier is defined below level 4.0.
pub open spec fn spec_dominates(index: int, l: LevelLimits, ctx: SequenceContext) -> bool {
    &&& l.max_pic_size >= ctx.pic_size.0 * ctx.pic_size.1
    &&& l.max_h_size >= ctx.pic_size.0
    &&& l.max_v_size >= ctx.pic_size.1
    &&& l.max_display_rate >= ctx.display_rate
    &&& l.max_decode_rate >= ctx.decode_rate
    &&& l.max_header_rate >= ctx.header_rate
    &&& (if ctx.tier == Tier::Main || index <= 7 {
        l.main_bitrate >= ctx.bitrate
    } else {
        l.high_bitrate >= ctx.bitrate
    })
    &&& l.max_tiles >= ctx.tiles
    &&& l.max_tile_cols >= ctx.tile_cols
}

/// The least valid level index at or after `i` whose limits dominate `ctx`,
/// or 32 when none does.
pub open spec fn spec_select_from(ctx: SequenceContext, i: int) -> int
    decreases 32 - i,
{
    if i < 0 || i >= 32 {
        32
    } else if spec_is_valid(i) && spec_dominates(i, spec_limits(i)->Some_0, ctx) {
        i
    } else {
        spec_select_from(ctx, i + 1)
    }
}

/// The level `calculate_level` returns: the least valid dominating index.
pub open spec fn spec_select(ctx: SequenceContext) -> int {
    spec_select_from(ctx, 0)
}

proof fn lemma_select_from_bounds(ctx: SequenceContext, i: int)
    requires
        0 <= i <= 32,
    ensures
        i <= spec_select_from(ctx, i) <= 32,
    decreases 32 - i,
{
    if i < 32 {
        lemma_select_from_bounds(ctx, i + 1);
    }
}

/// The sentinel dominates every context: each context field is bounded by
/// its type's range, and the sentinel's limits sit at those bounds.
proof fn lemma_sentinel_dominates(ctx: SequenceContext)
    ensures
        spec_dominates(31, spec_limits(31)->Some_0, ctx),
{
    lemma_mul_upper_bound(
        ctx.pic_size.0 as int,
        u16::MAX as int,
        ctx.pic_size.1 as int,
        u16::MAX as int,
    );
    assert((u16::MAX as int) * (u16::MAX as int) <= u32::MAX) by (nonlinear_arith);
}

proof fn lemma_select_from_never_32(ctx: SequenceContext, i: int)
    requires
        0 <= i <= 31,
    ensures
        spec_select_from(ctx, i) <= 31,
    decreases 32 - i,
{
    lemma_sentinel_dominates(ctx);
    if i < 31 && !(spec_is_valid(i) && spec_dominates(i, spec_limits(i)->Some_0, ctx)) {
        lemma_select_from_never_32(ctx, i + 1);
    }
}

/// Check whether the limits of valid level `index` accommodate `ctx`.
fn dominates(index: u8, l: &LevelLimits, ctx: &SequenceContext) -> (r: bool)
    ensures
        r == spec_dominates(index as int, *l, *ctx),
{
    proof {
        lemma_mul_upper_bound(
            ctx.pic_size.0 as int,
            u16::MAX as int,
            ctx.pic_size.1 as int,
            u16::MAX as int,
        );
        assert((u16::MAX as int) * (u16::MAX as int) <= u32::MAX) by (nonlinear_arith);
    }
    let pic_area: u32 = (ctx.pic_size.0 as u32) * (ctx.pic_size.1 as u32);
    let bitrate_ok = if matches!(ctx.tier, Tier::Main) || index <= 7 {
        l.main_bitrate >= ctx.bitrate
    } else {
        l.high_bitrate >= ctx.bitrate
    };
    l.max_pic_size >= pic_area && l.max_h_size >= ctx.pic_size.0 && l.max_v_size >= ctx.pic_size.1
        && l.max_display_rate >= ctx.display_rate && l.max_decode_rate >= ctx.decode_rate
        && l.max_header_rate >= ctx.header_rate && bitrate_ok && l.max_tiles >= ctx.tiles
        && l.max_tile_cols >= ctx.tile_cols
}

/// Scan the catalogue by ascending index and return the first valid level
/// whose limits all dominate the context.  The sentinel at index 31
/// guarantees that a match exists, so the scan is total.
pub fn calculate_level(context: &SequenceContext) -> (r: Level)
    ensures
        r.wf(),
        r.index == spec_select(*context),
        spec_is_valid(r.index as int),
        spec_dominates(r.index as int, spec_limits(r.index as int)->Some_0, *context),
        forall|j: int|
            0 <= j < r.index && spec_is_valid(j) ==> !spec_dominates(
                j,
                spec_limits(j)->Some_0,
                *context,
            ),
{
    let mut i: u8 = 0;
    while i < 32
        invariant
            0 <= i <= 32,
            spec_select(*context) == spec_select_from(*context, i as int),
        decreases 32 - i,
    {
        match limits(i) {
            Some(l) => {
                if dominates(i, &l, context) {
                    proof {
                        lemma_select_from_forall(*context, 0);
                    }
                    return Level { index: i, info: LevelInfo::Valid(l) };
                }
            },
            None => {},
        }
        i = i + 1;
    }
    proof {
        lemma_select_from_never_32(*context, 0);
        assert(false);
    }
    Level::new(31)
}

proof fn lemma_select_from_forall(ctx: SequenceContext, i: int)
    requires
        0 <= i <= 32,
    ensures
        forall|j: int|
            i <= j < spec_select_from(ctx, i) && spec_is_valid(j) ==> !spec_dominates(
                j,
                spec_limits(j)->Some_0,
                ctx,
            ),
    decreases 32 - i,
{
    if 0 <= i < 32 {
        lemma_select_from_forall(ctx, i + 1);
    }
}

/// Pointwise ordering of contexts: the same tier, and every quantity of `a`
/// at most the corresponding quantity of `b`.
pub open spec fn ctx_le(a: SequenceContext, b: SequenceContext) -> bool {
    &&& a.tier == b.tier
    &&& a.pic_size.0 <= b.pic_size.0
    &&& a.pic_size.1 <= b.pic_size.1
    &&& a.display_rate <= b.display_rate
    &&& a.decode_rate <= b.decode_rate
    &&& a.header_rate <= b.header_rate
    &&& a.bitrate <= b.bitrate
    &&& a.tiles <= b.tiles
    &&& a.tile_cols <= b.tile_cols
}

proof fn lemma_dominates_antitone(index: int, l: LevelLimits, a: SequenceContext, b: SequenceContext)
    requires
        ctx_le(a, b),
        spec_dominates(index, l, b),
    ensures
        spec_dominates(index, l, a),
{
    lemma_mul_upper_bound(a.pic_size.0 as int, b.pic_size.0 as int, a.pic_size.1 as int, b.pic_size.1 as int);
}

proof fn lemma_select_from_monotonic(a: SequenceContext, b: SequenceContext, i: int)
    requires
        ctx_le(a, b),
        0 <= i <= 32,
    ensures
        spec_select_from(a, i) <= spec_select_from(b, i),
    decreases 32 - i,
{
    if i < 32 {
        if spec_is_valid(i) && spec_dominates(i, spec_limits(i)->Some_0, b) {
            lemma_dominates_antitone(i, spec_limits(i)->Some_0, a, b);
        } else {
            lemma_select_from_bounds(b, i + 1);
            if spec_is_valid(i) && spec_dominates(i, spec_limits(i)->Some_0, a) {
            } else {
                lemma_select_from_monotonic(a, b, i + 1);
            }
        }
    }
}

/// Selection is monotonic: raising any quantity of the context (holding the
/// rest fixed) never lowers the selected level index.
pub proof fn lemma_select_monotonic(a: SequenceContext, b: SequenceContext)
    requires
        ctx_le(a, b),
    ensures
        spec_select(a) <= spec_select(b),
{
    lemma_select_from_monotonic(a, b, 0);
}

/// Exactly the indices {2, 3, 6, 7, 10, 11, 20..=30} are reserved.
pub proof fn lemma_reserved_levels(i: int)
    requires
        0 <= i < 32,
    ensures
        spec_is_valid(i) <==> !(i == 2 || i == 3 || i == 6 || i == 7 || i == 10 || i == 11 || (20
            <= i <= 30)),
{
}

/// The sentinel level 31 carries the largest representable value in every
/// limit field.
pub proof fn lemma_sentinel_limits()
    ensures
        spec_limits(31) == Some(
            LevelLimits {
                max_pic_size: u32::MAX,
                max_h_size: u16::MAX,
                max_v_size: u16::MAX,
                max_display_rate: u64::MAX,
                max_decode_rate: u64::MAX,
                max_header_rate: u16::MAX,
                main_bitrate: u64::MAX,
                high_bitrate: u64::MAX,
                main_cr: u8::MAX,
                high_cr: u8::MAX,
                max_tiles: u8::MAX,
                max_tile_cols: u8::MAX,
            },
        ),
{
}

} // verus!
