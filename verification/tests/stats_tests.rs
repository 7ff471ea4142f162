use av1_level::error::StreamError;
use av1_level::level::Tier;
use av1_level::ratio::{add_clamp, mul_clamp, Ratio};
use av1_level::selector::resolve;
use av1_level::stats::{StatisticsAccumulator, StreamEvent};
use av1_level::compress::{calculate_min_pic_compress_ratio, min_cr_level_index};

#[test]
fn frame_header_before_sequence_header_is_rejected() {
    let mut acc = StatisticsAccumulator::new(30, 1, 64, 64);
    let r = acc.ingest_frame_header(0, 1000, true, true, false, 1, 1);
    assert_eq!(r, Err(StreamError::HeaderOrderViolation));
}

#[test]
fn single_temporal_unit_finalizes_without_dividing() {
    // One temporal unit and no second delimiter: the clamped minimum delta
    // (the final unit start) takes over, and a unit starting at time zero
    // measures no final-unit rates at all.
    let mut acc = StatisticsAccumulator::new(30, 1, 64, 64);
    acc.ingest_sequence_header(0, Tier::Main);
    acc.ingest_frame_header(0, 1000, true, true, false, 1, 1).unwrap();
    let (ctx, floor) = acc.finalize(Tier::Main, 1, 64, 64).unwrap();
    assert_eq!(ctx.display_rate, 0);
    assert_eq!(ctx.decode_rate, 0);
    // The window is shorter than a second, so the unity factor applies:
    // one header, 1000 bytes, 8000 bits.
    assert_eq!(ctx.header_rate, 1);
    assert_eq!(ctx.bitrate, 8000);
    assert_eq!(ctx.pic_size, (64, 64));
    assert_eq!(ctx.tiles, 1);
    assert_eq!(floor, 0);
}

#[test]
fn single_unit_with_nonzero_start_uses_the_clamped_delta() {
    // The unit starts at pts 5 with a 1/1 time scale: the clamped delta is
    // 5 time units, so one shown frame displays at 1/5 frame per second.
    let mut acc = StatisticsAccumulator::new(1, 1, 100, 100);
    acc.ingest_sequence_header(0, Tier::Main);
    acc.ingest_frame_header(5, 1128, true, true, false, 1, 1).unwrap();
    let (ctx, _) = acc.finalize(Tier::Main, 1, 100, 100).unwrap();
    // ceil(1/5 * 10000) = 2000 samples per second.
    assert_eq!(ctx.display_rate, 2000);
    assert_eq!(ctx.decode_rate, 2000);
}

#[test]
fn two_units_accumulate_exact_rates() {
    let mut acc = StatisticsAccumulator::new(1, 1, 100, 100);
    acc.ingest_sequence_header(0, Tier::Main);
    acc.ingest_frame_header(0, 1128, true, true, false, 2, 2).unwrap();
    acc.ingest_temporal_delimiter(1);
    acc.ingest_frame_header(1, 2128, true, true, false, 2, 2).unwrap();
    let (ctx, floor) = acc.finalize(Tier::Main, 1, 100, 100).unwrap();
    // Each unit lasts one one-second time unit and shows one frame.
    assert_eq!(ctx.display_rate, 10000);
    assert_eq!(ctx.decode_rate, 10000);
    assert_eq!(ctx.header_rate, 1);
    // The first unit fills the window alone: 1128 bytes over one second.
    assert_eq!(ctx.bitrate, 9024);
    assert_eq!(ctx.tiles, 4);
    assert_eq!(ctx.tile_cols, 2);
    assert_eq!(floor, 0);
    let level = resolve(&ctx, floor, None);
    assert_eq!(level.index, 0);
}

#[test]
fn window_eviction_keeps_one_time_scale_unit() {
    // Two presentation-time units make one second; three one-unit temporal
    // units pass, so the third boundary evicts the first sample and the
    // bitrate maximum reflects the last two units: (2000 + 3000) bytes
    // over one second.
    let mut acc = StatisticsAccumulator::new(2, 1, 100, 100);
    acc.ingest_sequence_header(0, Tier::Main);
    acc.ingest_frame_header(0, 1000, true, true, false, 1, 1).unwrap();
    acc.ingest_temporal_delimiter(1);
    acc.ingest_frame_header(1, 2000, true, true, false, 1, 1).unwrap();
    acc.ingest_temporal_delimiter(2);
    acc.ingest_frame_header(2, 3000, true, true, false, 1, 1).unwrap();
    acc.ingest_temporal_delimiter(3);
    assert_eq!(acc.window.len(), 2);
    let (ctx, _) = acc.finalize(Tier::Main, 1, 100, 100).unwrap();
    assert_eq!(ctx.bitrate, (2000 + 3000) * 8);
    assert_eq!(ctx.header_rate, 2);
    // One shown frame per half-second unit: two frames per second, scaled
    // by the 10000-sample picture.
    assert_eq!(ctx.display_rate, 20000);
}

#[test]
fn duplicate_temporal_delimiter_is_ignored() {
    let mut acc = StatisticsAccumulator::new(30, 1, 64, 64);
    acc.ingest_sequence_header(0, Tier::Main);
    acc.ingest_frame_header(0, 500, true, true, false, 1, 1).unwrap();
    let headers_before = acc.header_count;
    acc.ingest_temporal_delimiter(0);
    assert_eq!(acc.header_count, headers_before);
    assert_eq!(acc.window.len(), 0);
}

#[test]
fn two_operating_points_fail_before_any_output() {
    let mut acc = StatisticsAccumulator::new(30, 1, 64, 64);
    acc.ingest_sequence_header(0, Tier::Main);
    acc.ingest_frame_header(0, 500, true, true, false, 1, 1).unwrap();
    let r = acc.finalize(Tier::Main, 2, 64, 64);
    assert_eq!(r.unwrap_err(), StreamError::UnsupportedFeature);
    // Nothing was consumed: a later supported finalize still works.
    assert!(acc.finalize(Tier::Main, 1, 64, 64).is_ok());
}

#[test]
fn payload_bytes_enter_the_unit_tally() {
    let mut acc = StatisticsAccumulator::new(1, 1, 100, 100);
    acc.ingest_sequence_header(0, Tier::Main);
    acc.ingest_frame_header(0, 1000, true, true, false, 1, 1).unwrap();
    acc.ingest_payload(500);
    assert_eq!(acc.tu_size, 1500);
    assert_eq!(acc.frame_size, 1000 - 128 + 500);
}

#[test]
fn tile_list_raises_the_maxima() {
    let mut acc = StatisticsAccumulator::new(1, 1, 100, 100);
    acc.ingest_sequence_header(0, Tier::Main);
    acc.ingest_frame_header(0, 1000, true, true, false, 2, 2).unwrap();
    acc.ingest_tile_list(100, 3);
    assert_eq!(acc.max_tile_list_bitrate, 100 * 8 * 180);
    // picture 10000, 4 tiles in the grid, 4 tiles listed, times 180.
    assert_eq!(acc.max_tile_decode_rate.num, 10000 * 4 * 180);
    assert_eq!(acc.max_tile_decode_rate.den, 4);
}

#[test]
fn compression_ratio_thresholds_scale_with_display_rate() {
    // At a display rate equal to level 2.0's maximum, its requirement is
    // the full Main constant of 2; far below, the 0.8 floor applies.
    let at_max = calculate_min_pic_compress_ratio(Tier::Main, Ratio { num: 4_423_680, den: 1 });
    assert_eq!(at_max[0].num, 2 * 4_423_680);
    assert_eq!(at_max[0].den, 4_423_680);
    let slow = calculate_min_pic_compress_ratio(Tier::Main, Ratio { num: 1, den: 1 });
    assert_eq!(slow[0], Ratio { num: 4, den: 5 });
    // Reserved slots require nothing.
    assert_eq!(at_max[2], Ratio { num: 0, den: 1 });
    // Monotonic: each valid level's requirement at the higher display rate
    // is at least its requirement at the lower one, and at least 0.8.
    for i in 0..32 {
        let lo = slow[i];
        let hi = at_max[i];
        assert!(
            (lo.num as u128) * (hi.den as u128) <= (hi.num as u128) * (lo.den as u128),
            "level {}",
            i
        );
        if lo.den == 5 || lo.num > 0 {
            assert!((4u128) * (lo.den as u128) <= (lo.num as u128) * 5, "floor at {}", i);
        }
    }
}

#[test]
fn implied_level_scans_from_the_bottom() {
    let dr = Ratio { num: 4_423_680, den: 1 };
    // An unbounded observation satisfies level 0 at once.
    assert_eq!(min_cr_level_index(Tier::Main, dr, None), 0);
    // A ratio of 100 beats level 0's requirement of 2.
    assert_eq!(min_cr_level_index(Tier::Main, dr, Some(Ratio { num: 100, den: 1 })), 0);
    // A ratio below every requirement stops at the first reserved slot.
    assert_eq!(min_cr_level_index(Tier::Main, dr, Some(Ratio { num: 1, den: 100 })), 2);
}

#[test]
fn event_dispatch_matches_the_direct_calls() {
    let mut by_event = StatisticsAccumulator::new(1, 1, 100, 100);
    by_event
        .ingest(StreamEvent::SequenceHeader { seq_profile: 0, tier: Tier::Main })
        .unwrap();
    by_event
        .ingest(StreamEvent::FrameHeader {
            pts: 0,
            obu_size: 1128,
            header_only: true,
            show_frame: true,
            show_existing_frame: false,
            tile_cols: 2,
            tile_rows: 2,
        })
        .unwrap();
    by_event.ingest(StreamEvent::Payload { obu_size: 100 }).unwrap();
    by_event.ingest(StreamEvent::TemporalDelimiter { pts: 1 }).unwrap();

    let mut direct = StatisticsAccumulator::new(1, 1, 100, 100);
    direct.ingest_sequence_header(0, Tier::Main);
    direct.ingest_frame_header(0, 1128, true, true, false, 2, 2).unwrap();
    direct.ingest_payload(100);
    direct.ingest_temporal_delimiter(1);

    assert_eq!(by_event.tu_size, direct.tu_size);
    assert_eq!(by_event.max_bitrate, direct.max_bitrate);
    assert_eq!(by_event.max_display_rate, direct.max_display_rate);
    assert_eq!(by_event.total_show_count, direct.total_show_count);
}

#[test]
fn saturating_helpers_clamp_at_the_top() {
    assert_eq!(mul_clamp(u64::MAX, 2), u64::MAX);
    assert_eq!(mul_clamp(3, 4), 12);
    assert_eq!(add_clamp(u64::MAX - 1, 5), u64::MAX);
    assert_eq!(add_clamp(2, 5), 7);
}

#[test]
fn every_error_has_its_diagnostic() {
    assert_eq!(
        StreamError::UnsupportedContainerFormat.message(),
        "unsupported container format"
    );
    assert_eq!(StreamError::UnsupportedCodec.message(), "unsupported codec");
    assert_eq!(StreamError::MalformedStream.message(), "malformed stream");
    assert_eq!(
        StreamError::HeaderOrderViolation.message(),
        "frame header found before sequence header"
    );
    assert_eq!(StreamError::UnsupportedFeature.message(), "unsupported stream feature");
    assert_eq!(
        StreamError::ConsistencyCheckFailure.message(),
        "level at the location seeked to patch does not match the parsed value"
    );
    assert_eq!(
        StreamError::InvalidTierTransition.message(),
        "cannot reduce level below 4.0 when High tier is specified"
    );
    assert_eq!(StreamError::InvalidArguments.message(), "invalid arguments");
}

#[test]
fn rational_comparison_is_exact() {
    let a = Ratio { num: 1, den: 3 };
    let b = Ratio { num: 333_333_333_333_333_333, den: 1_000_000_000_000_000_000 };
    assert!(b.le(&a));
    assert!(!a.le(&b));
    assert_eq!(a.max(b), a);
}
