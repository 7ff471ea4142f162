//! The compression-ratio model: the minimum required picture compression
//! ratio per level, as a function of the stream's tier and display rate.
//!
//! For a valid level the required ratio is the tier-appropriate constant of
//! the level scaled by `display_rate / max_display_rate`, floored at `0.8`.
//! The Main-tier constant applies whenever the stream's tier is Main or the
//! level index is at most 7 (only Main tier is defined below level 4.0).
//! Reserved catalogue slots carry a zero requirement.

use vstd::prelude::*;

use crate::level::{spec_is_valid, spec_limits, limits, Tier};
use crate::ratio::{
    clamp64, mul_clamp, ratio_le, spec_ratio_max, lemma_ratio_le_refl, lemma_ratio_le_total,
    lemma_ratio_le_trans, Ratio,
};

verus! {

/// The compression-ratio constant of level `i` for the given tier.
pub open spec fn spec_cr_basis(tier: Tier, i: int) -> int {
    if tier == Tier::Main || i <= 7 {
        spec_limits(i)->Some_0.main_cr as int
    } else {
        spec_limits(i)->Some_0.high_cr as int
    }
}

/// The minimum required picture compression ratio of level `i`: the scaled
/// tier constant floored at 4/5, or zero for a reserved slot.  The products
/// saturate at `u64::MAX` like the executable arithmetic.
pub open spec fn spec_cr_threshold(tier: Tier, display_rate: Ratio, i: int) -> Ratio {
    if !spec_is_valid(i) {
        Ratio { num: 0u64, den: 1u64 }
    } else {
        spec_ratio_max(
            Ratio { num: 4u64, den: 5u64 },
            Ratio {
                num: clamp64(spec_cr_basis(tier, i) * display_rate.num) as u64,
                den: clamp64(
                    display_rate.den * spec_limits(i)->Some_0.max_display_rate,
                ) as u64,
            },
        )
    }
}

/// The minimum required picture compression ratio of every level index, as
/// a table of 32 exact rationals.
pub fn calculate_min_pic_compress_ratio(tier: Tier, display_rate: Ratio) -> (r: Vec<Ratio>)
    requires
        display_rate.wf(),
    ensures
        r@.len() == 32,
        forall|i: int|
            0 <= i < 32 ==> r@[i] == spec_cr_threshold(tier, display_rate, i),
{
    let mut r: Vec<Ratio> = Vec::new();
    let mut i: u8 = 0;
    while i < 32
        invariant
            display_rate.wf(),
            i <= 32,
            r@.len() == i as int,
            forall|j: int| 0 <= j < i as int ==> r@[j] == spec_cr_threshold(tier, display_rate, j),
        decreases 32 - i,
    {
        let entry = match limits(i) {
            Some(l) => {
                let basis: u8 = if matches!(tier, Tier::Main) || i <= 7 {
                    l.main_cr
                } else {
                    l.high_cr
                };
                let scaled = Ratio {
                    num: mul_clamp(basis as u64, display_rate.num),
                    den: mul_clamp(display_rate.den, l.max_display_rate),
                };
                Ratio { num: 4, den: 5 }.max(scaled)
            },
            None => Ratio { num: 0, den: 1 },
        };
        r.push(entry);
        i = i + 1;
    }
    r
}

/// The least level index whose required compression ratio is at or below the
/// observed minimum per-frame ratio, scanning the catalogue by ascending
/// index (reserved slots, requiring nothing, stop the scan).  An absent
/// observation stands for an unbounded ratio and satisfies every slot.
pub open spec fn spec_cr_implied_from(
    tier: Tier,
    display_rate: Ratio,
    observed: Option<Ratio>,
    i: int,
) -> int
    decreases 32 - i,
{
    if i < 0 || i >= 32 {
        32
    } else if observed is None || ratio_le(spec_cr_threshold(tier, display_rate, i), observed->0) {
        i
    } else {
        spec_cr_implied_from(tier, display_rate, observed, i + 1)
    }
}

/// The level index implied by the observed minimum compression ratio.
pub open spec fn spec_cr_implied(tier: Tier, display_rate: Ratio, observed: Option<Ratio>) -> int {
    spec_cr_implied_from(tier, display_rate, observed, 0)
}

/// The scan stops at index 2 at the latest: that slot is reserved and its
/// zero requirement is at or below every observation.
proof fn lemma_cr_implied_small(tier: Tier, display_rate: Ratio, observed: Option<Ratio>)
    ensures
        0 <= spec_cr_implied(tier, display_rate, observed) <= 2,
{
    if observed is Some {
        let obs = observed->0;
        assert(spec_cr_threshold(tier, display_rate, 2) == (Ratio { num: 0u64, den: 1u64 }));
        assert(0 * obs.den == 0 && obs.num * 1 == obs.num);
        assert(ratio_le(spec_cr_threshold(tier, display_rate, 2), obs));
        assert(spec_cr_implied_from(tier, display_rate, observed, 2) == 2);
        assert(spec_cr_implied_from(tier, display_rate, observed, 1) <= 2);
        assert(spec_cr_implied_from(tier, display_rate, observed, 0) <= 2);
    } else {
        assert(spec_cr_implied_from(tier, display_rate, observed, 0) == 0);
    }
}

/// The least level index whose required compression ratio the observed
/// minimum per-frame ratio satisfies.
pub fn min_cr_level_index(tier: Tier, display_rate: Ratio, observed: Option<Ratio>) -> (r: u8)
    requires
        display_rate.wf(),
    ensures
        r == spec_cr_implied(tier, display_rate, observed),
        r <= 2,
{
    proof {
        lemma_cr_implied_small(tier, display_rate, observed);
    }
    let thresholds = calculate_min_pic_compress_ratio(tier, display_rate);
    let mut i: u8 = 0;
    while i < 32
        invariant
            display_rate.wf(),
            i <= 32,
            0 <= spec_cr_implied(tier, display_rate, observed) <= 2,
            thresholds@.len() == 32,
            forall|j: int|
                0 <= j < 32 ==> thresholds@[j] == spec_cr_threshold(tier, display_rate, j),
            spec_cr_implied(tier, display_rate, observed) == spec_cr_implied_from(
                tier,
                display_rate,
                observed,
                i as int,
            ),
        decreases 32 - i,
    {
        let hit = match observed {
            None => true,
            Some(obs) => thresholds[i as usize].le(&obs),
        };
        if hit {
            return i;
        }
        i = i + 1;
    }
    proof {
        assert(false);
    }
    0
}

/// For a fixed tier and valid level the required compression ratio never
/// decreases as the display rate grows, and never falls below 4/5, as long
/// as the scaled products stay in range.
pub proof fn lemma_cr_threshold_monotonic(tier: Tier, dr1: Ratio, dr2: Ratio, i: int)
    requires
        spec_is_valid(i),
        dr1.wf(),
        dr2.wf(),
        ratio_le(dr1, dr2),
        spec_cr_basis(tier, i) * dr1.num <= u64::MAX,
        spec_cr_basis(tier, i) * dr2.num <= u64::MAX,
        dr1.den * spec_limits(i)->Some_0.max_display_rate <= u64::MAX,
        dr2.den * spec_limits(i)->Some_0.max_display_rate <= u64::MAX,
    ensures
        ratio_le(spec_cr_threshold(tier, dr1, i), spec_cr_threshold(tier, dr2, i)),
        ratio_le(Ratio { num: 4u64, den: 5u64 }, spec_cr_threshold(tier, dr1, i)),
{
    let b = spec_cr_basis(tier, i);
    let m = spec_limits(i)->Some_0.max_display_rate as int;
    let floor = Ratio { num: 4u64, den: 5u64 };
    let raw1 = Ratio { num: (b * dr1.num) as u64, den: (dr1.den * m) as u64 };
    let raw2 = Ratio { num: (b * dr2.num) as u64, den: (dr2.den * m) as u64 };
    assert(spec_limits(i)->Some_0.max_display_rate >= 1) by {
        lemma_reserved_max_display_rate(i);
    }
    assert(raw1.wf() && raw2.wf()) by (nonlinear_arith)
        requires
            dr1.den >= 1,
            dr2.den >= 1,
            m >= 1,
            raw1.den == dr1.den * m,
            raw2.den == dr2.den * m,
    ;
    assert(ratio_le(raw1, raw2)) by (nonlinear_arith)
        requires
            dr1.num * dr2.den <= dr2.num * dr1.den,
            b >= 0,
            m >= 1,
            raw1.num == b * dr1.num,
            raw1.den == dr1.den * m,
            raw2.num == b * dr2.num,
            raw2.den == dr2.den * m,
    ;
    lemma_ratio_le_refl(floor);
    lemma_ratio_le_total(floor, raw1);
    lemma_ratio_le_total(floor, raw2);
    if ratio_le(floor, raw1) {
        lemma_ratio_le_trans(floor, raw1, raw2);
    }
}

/// Every valid level's maximum display rate is positive.
proof fn lemma_reserved_max_display_rate(i: int)
    requires
        spec_is_valid(i),
    ensures
        spec_limits(i)->Some_0.max_display_rate >= 1,
{
}

} // verus!
