use av1_level::level::{calculate_level, limits, Level, SequenceContext, Tier};
use av1_level::selector::resolve;

fn base_context() -> SequenceContext {
    SequenceContext {
        tier: Tier::Main,
        pic_size: (426, 240),
        display_rate: 3_067_200,
        decode_rate: 3_067_200,
        header_rate: 30,
        bitrate: 1_000_000,
        tiles: 1,
        tile_cols: 1,
    }
}

#[test]
fn reserved_indices_are_exactly_the_gaps() {
    let reserved = [2u8, 3, 6, 7, 10, 11, 20, 21, 22, 23, 24, 25, 26, 27, 28, 29, 30];
    for i in 0..32u8 {
        let level = Level::new(i);
        assert_eq!(level.is_valid(), !reserved.contains(&i), "index {}", i);
        assert_eq!(limits(i).is_some(), !reserved.contains(&i), "index {}", i);
    }
}

#[test]
fn sentinel_limits_are_type_maxima() {
    let l = limits(31).unwrap();
    assert_eq!(l.max_pic_size, u32::MAX);
    assert_eq!(l.max_h_size, u16::MAX);
    assert_eq!(l.max_v_size, u16::MAX);
    assert_eq!(l.max_display_rate, u64::MAX);
    assert_eq!(l.max_decode_rate, u64::MAX);
    assert_eq!(l.max_header_rate, u16::MAX);
    assert_eq!(l.main_bitrate, u64::MAX);
    assert_eq!(l.high_bitrate, u64::MAX);
    assert_eq!(l.main_cr, u8::MAX);
    assert_eq!(l.high_cr, u8::MAX);
    assert_eq!(l.max_tiles, u8::MAX);
    assert_eq!(l.max_tile_cols, u8::MAX);
}

#[test]
fn display_names() {
    assert_eq!(Level::new(0).display_name(), "2.0 (0)");
    assert_eq!(Level::new(1).display_name(), "2.1 (1)");
    assert_eq!(Level::new(8).display_name(), "4.0 (8)");
    assert_eq!(Level::new(13).display_name(), "5.1 (13)");
    assert_eq!(Level::new(19).display_name(), "6.3 (19)");
    assert_eq!(Level::new(2).display_name(), "Reserved");
    assert_eq!(Level::new(24).display_name(), "Reserved");
    assert_eq!(Level::new(31).display_name(), "Maximum parameters");
}

#[test]
fn select_small_stream_is_level_zero() {
    let level = calculate_level(&base_context());
    assert_eq!(level.index, 0);
    assert!(level.is_valid());
}

#[test]
fn select_full_hd_is_level_eight() {
    let ctx = SequenceContext {
        tier: Tier::Main,
        pic_size: (1920, 1080),
        display_rate: 62_208_000,
        decode_rate: 62_208_000,
        header_rate: 30,
        bitrate: 10_000_000,
        tiles: 1,
        tile_cols: 1,
    };
    assert_eq!(calculate_level(&ctx).index, 8);
}

#[test]
fn select_worst_case_is_sentinel() {
    let ctx = SequenceContext {
        tier: Tier::Main,
        pic_size: (u16::MAX, u16::MAX),
        display_rate: u64::MAX,
        decode_rate: u64::MAX,
        header_rate: u16::MAX,
        bitrate: u64::MAX,
        tiles: u8::MAX,
        tile_cols: u8::MAX,
    };
    assert_eq!(calculate_level(&ctx).index, 31);
}

#[test]
fn select_monotonic_in_bitrate() {
    let mut ctx = base_context();
    let low = calculate_level(&ctx).index;
    ctx.bitrate = 2_000_000;
    let high = calculate_level(&ctx).index;
    assert!(low <= high);
    assert_eq!(low, 0);
    assert_eq!(high, 1);
}

#[test]
fn select_high_tier_uses_high_bitrate_bound() {
    let mut ctx = base_context();
    ctx.pic_size = (1920, 1080);
    ctx.display_rate = 62_208_000;
    ctx.decode_rate = 62_208_000;
    ctx.bitrate = 25_000_000;
    ctx.tier = Tier::Main;
    // 25 Mbps exceeds level 4.0's Main-tier 12 Mbps but not 4.1's 20...
    // it needs Main 30 Mbps: level 5.0 (index 12).
    assert_eq!(calculate_level(&ctx).index, 12);
    // High tier admits 30 Mbps already at level 4.0 (index 8).
    ctx.tier = Tier::High;
    assert_eq!(calculate_level(&ctx).index, 8);
}

#[test]
fn resolve_honours_forced_level() {
    let forced = Level::new(13);
    let r = resolve(&base_context(), 0, Some(forced));
    assert_eq!(r.index, 13);
}

#[test]
fn resolve_raises_to_compression_floor() {
    let r = resolve(&base_context(), 1, None);
    assert_eq!(r.index, 1);
    let r = resolve(&base_context(), 0, None);
    assert_eq!(r.index, 0);
}

#[test]
fn default_tier_is_main() {
    assert_eq!(Tier::default(), Tier::Main);
}
