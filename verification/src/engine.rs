//! The engine torque model: piecewise-linear interpolation over a measured
//! torque curve.
//!
//! A curve is an ordered sequence of (rpm, torque) samples with strictly
//! increasing rpm.  Below the first sample and at or above the last the
//! torque extrapolates flat; between two samples it interpolates linearly.
//! Engine speeds are in milli-rpm and torques in milli-newton-metres.

use vstd::prelude::*;

use crate::fixed::{div_trunc, div_trunc_i128, mul_wide};

verus! {

/// Largest sample rpm a well-formed curve may hold, in milli-rpm.
pub const RPM_SAMPLE_MAX: u64 = 100_000_000;

/// Largest sample torque a well-formed curve may hold, in milli-newton-metres.
pub const TORQUE_SAMPLE_MAX: i64 = 10_000_000;

/// The hard engine speed ceiling in milli-rpm: above it the engine cuts out.
/// It is the redline of the measured curve, its last sample.
pub const MAX_RPM_MILLI: u64 = 6_500_000;

/// A well-formed torque curve: at least two samples, strictly increasing
/// rpm, and every sample within the model's bounds.
pub open spec fn curve_wf(s: Seq<(u64, i64)>) -> bool {
    &&& s.len() >= 2
    &&& forall|i: int| 0 <= i < s.len() - 1 ==> #[trigger] s[i].0 < s[i + 1].0
    &&& forall|i: int|
        0 <= i < s.len() ==> (#[trigger] s[i].0 <= RPM_SAMPLE_MAX && 0 <= s[i].1
            <= TORQUE_SAMPLE_MAX)
}

/// Linear interpolation between two samples at the given rpm.
pub open spec fn interp(lo: (u64, i64), hi: (u64, i64), rpm: int) -> int {
    lo.1 + div_trunc((rpm - lo.0) * (hi.1 - lo.1), hi.0 - lo.0)
}

/// The torque a curve yields at the given rpm: flat below the first sample
/// and at or above the last, linear between the bracketing pair otherwise.
pub open spec fn torque_of(s: Seq<(u64, i64)>, rpm: int) -> int
    decreases s.len(),
{
    if s.len() == 0 {
        0
    } else if s.len() == 1 {
        s[0].1 as int
    } else if rpm < s[0].0 {
        s[0].1 as int
    } else if rpm >= s[s.len() - 1].0 {
        s[s.len() - 1].1 as int
    } else if rpm < s[1].0 {
        interp(s[0], s[1], rpm)
    } else {
        torque_of(s.drop_first(), rpm)
    }
}

/// Sample rpm values of a sorted curve grow with the index.
pub proof fn lemma_sorted(s: Seq<(u64, i64)>, i: int, j: int)
    requires
        forall|k: int| 0 <= k < s.len() - 1 ==> #[trigger] s[k].0 < s[k + 1].0,
        0 <= i <= j < s.len(),
    ensures
        s[i].0 <= s[j].0,
        i < j ==> s[i].0 < s[j].0,
    decreases j - i,
{
    if i < j {
        lemma_sorted(s, i, j - 1);
        assert(s[j - 1].0 < s[j].0);
    }
}

/// Interpolation stays between the torques of its two samples.
pub proof fn lemma_interp_between(lo: (u64, i64), hi: (u64, i64), rpm: int)
    requires
        lo.0 <= rpm < hi.0,
    ensures
        hi.1 >= lo.1 ==> lo.1 <= interp(lo, hi, rpm) <= hi.1,
        hi.1 <= lo.1 ==> hi.1 <= interp(lo, hi, rpm) <= lo.1,
{
    let spot = rpm - lo.0;
    let drange = hi.0 - lo.0;
    let trange = hi.1 - lo.1;
    if trange >= 0 {
        assert(0 <= spot * trange <= drange * trange) by (nonlinear_arith)
            requires
                0 <= spot <= drange,
                trange >= 0,
        ;
        assert(drange * trange == trange * drange) by (nonlinear_arith);
        crate::fixed::lemma_div_trunc_ordered(0, spot * trange, drange);
        crate::fixed::lemma_div_trunc_ordered(spot * trange, trange * drange, drange);
        crate::fixed::lemma_div_trunc_exact(trange, drange);
        crate::fixed::lemma_div_shrinks(0, drange);
    } else {
        assert(trange * drange <= spot * trange <= 0) by (nonlinear_arith)
            requires
                0 <= spot <= drange,
                trange < 0,
        ;
        crate::fixed::lemma_div_trunc_ordered(spot * trange, 0, drange);
        crate::fixed::lemma_div_trunc_ordered(trange * drange, spot * trange, drange);
        crate::fixed::lemma_div_trunc_exact(trange, drange);
        crate::fixed::lemma_div_shrinks(0, drange);
    }
}

/// Dropping the first sample of a curve with at least three keeps it
/// well-formed.
pub proof fn lemma_curve_wf_drop(s: Seq<(u64, i64)>)
    requires
        curve_wf(s),
        s.len() >= 3,
    ensures
        curve_wf(s.drop_first()),
{
    let t = s.drop_first();
    assert forall|i: int| 0 <= i < t.len() - 1 implies #[trigger] t[i].0 < t[i + 1].0 by {
        assert(s[i + 1].0 < s[i + 2].0);
    }
    assert forall|i: int| 0 <= i < t.len() implies (#[trigger] t[i].0 <= RPM_SAMPLE_MAX && 0 <= t[i].1
        <= TORQUE_SAMPLE_MAX) by {
        assert(s[i + 1].0 <= RPM_SAMPLE_MAX && 0 <= s[i + 1].1 <= TORQUE_SAMPLE_MAX);
    }
}

/// The torque of a well-formed curve stays within the sample bounds.
pub proof fn lemma_torque_of_in_range(s: Seq<(u64, i64)>, rpm: int)
    requires
        curve_wf(s),
    ensures
        0 <= torque_of(s, rpm) <= TORQUE_SAMPLE_MAX,
    decreases s.len(),
{
    if rpm < s[0].0 {
    } else if rpm >= s[s.len() - 1].0 {
    } else if rpm < s[1].0 {
        lemma_interp_between(s[0], s[1], rpm);
    } else {
        lemma_curve_wf_drop(s);
        lemma_torque_of_in_range(s.drop_first(), rpm);
    }
}

/// A curve reproduces its samples exactly.
pub proof fn lemma_torque_exact_at_sample(s: Seq<(u64, i64)>, i: int)
    requires
        curve_wf(s),
        0 <= i < s.len(),
    ensures
        torque_of(s, s[i].0 as int) == s[i].1,
    decreases s.len(),
{
    let rpm = s[i].0;
    if i == s.len() - 1 {
        lemma_sorted(s, 0, i);
    } else if i == 0 {
        lemma_sorted(s, 0, s.len() - 1);
        assert(rpm < s[s.len() - 1].0);
        let spot = rpm - s[0].0;
        assert(spot == 0);
        assert(0 * (s[1].1 - s[0].1) == 0) by (nonlinear_arith);
        crate::fixed::lemma_div_shrinks(0, s[1].0 - s[0].0);
    } else {
        lemma_sorted(s, 0, i);
        lemma_sorted(s, 1, i);
        lemma_sorted(s, i, s.len() - 1);
        lemma_curve_wf_drop(s);
        lemma_torque_exact_at_sample(s.drop_first(), i - 1);
        assert(s.drop_first()[i - 1] == s[i]);
    }
}

/// Below the first sample (inclusive) the torque is flat at the first
/// sample's value.
pub proof fn lemma_torque_flat_below(s: Seq<(u64, i64)>, rpm: int)
    requires
        curve_wf(s),
        rpm <= s[0].0,
    ensures
        torque_of(s, rpm) == s[0].1,
{
    if rpm == s[0].0 {
        lemma_torque_exact_at_sample(s, 0);
    }
}

/// At or above the last sample the torque is flat at the last sample's
/// value.
pub proof fn lemma_torque_flat_above(s: Seq<(u64, i64)>, rpm: int)
    requires
        curve_wf(s),
        rpm >= s[s.len() - 1].0,
    ensures
        torque_of(s, rpm) == s[s.len() - 1].1,
{
    lemma_sorted(s, 0, s.len() - 1);
}


/// The measured torque curve of the model's engine, as a mathematical
/// sequence: samples every 100 rpm from 1000 to 6500 rpm, in milli units.
#[verifier::opaque]
pub open spec fn fiesta_points() -> Seq<(u64, i64)> {
    seq![
        (1000000u64, 185600i64),
        (1100000u64, 210900i64),
        (1200000u64, 232000i64),
        (1300000u64, 249800i64),
        (1400000u64, 265100i64),
        (1500000u64, 278400i64),
        (1600000u64, 290000i64),
        (1700000u64, 290000i64),
        (1800000u64, 290000i64),
        (1900000u64, 290000i64),
        (2000000u64, 290000i64),
        (2100000u64, 290000i64),
        (2200000u64, 290000i64),
        (2300000u64, 290000i64),
        (2400000u64, 290000i64),
        (2500000u64, 290000i64),
        (2600000u64, 290000i64),
        (2700000u64, 290000i64),
        (2800000u64, 290000i64),
        (2900000u64, 290000i64),
        (3000000u64, 290000i64),
        (3100000u64, 290000i64),
        (3200000u64, 290000i64),
        (3300000u64, 290000i64),
        (3400000u64, 290000i64),
        (3500000u64, 290000i64),
        (3600000u64, 290000i64),
        (3700000u64, 290000i64),
        (3800000u64, 290000i64),
        (3900000u64, 290000i64),
        (4000000u64, 290000i64),
        (4100000u64, 289900i64),
        (4200000u64, 289400i64),
        (4300000u64, 288700i64),
        (4400000u64, 287800i64),
        (4500000u64, 286500i64),
        (4600000u64, 285000i64),
        (4700000u64, 283100i64),
        (4800000u64, 281000i64),
        (4900000u64, 278600i64),
        (5000000u64, 276000i64),
        (5100000u64, 273000i64),
        (5200000u64, 269800i64),
        (5300000u64, 264900i64),
        (5400000u64, 259900i64),
        (5500000u64, 255200i64),
        (5600000u64, 250700i64),
        (5700000u64, 246300i64),
        (5800000u64, 242000i64),
        (5900000u64, 237900i64),
        (6000000u64, 234000i64),
        (6100000u64, 229200i64),
        (6200000u64, 222800i64),
        (6300000u64, 214800i64),
        (6400000u64, 205300i64),
        (6500000u64, 194400i64),
    ]
}

/// The torque the model's engine yields at the given engine speed.
pub open spec fn fiesta_torque(rpm_milli: int) -> int {
    torque_of(fiesta_points(), rpm_milli)
}

/// Index of the last sample of the plateau at peak torque (4000 rpm): the
/// curve is non-decreasing up to it and non-increasing from it on.
pub open spec fn fiesta_peak_index() -> int {
    30
}

/// Shape of the measured curve: well-formed, non-decreasing up to the peak
/// sample and non-increasing after it.
#[verifier::rlimit(100)]
pub proof fn lemma_fiesta_shape()
    ensures
        curve_wf(fiesta_points()),
        fiesta_points().len() == 56,
        fiesta_points()[fiesta_peak_index()].0 == 4_000_000,
        fiesta_points()[0].0 == 1_000_000,
        fiesta_points()[55].0 == MAX_RPM_MILLI,
        forall|i: int|
            0 <= i < fiesta_peak_index() ==> #[trigger] fiesta_points()[i].1 <= fiesta_points()[i
                + 1].1,
        forall|i: int|
            fiesta_peak_index() <= i < 55 ==> #[trigger] fiesta_points()[i].1 >= fiesta_points()[i
                + 1].1,
        fiesta_points()[0].1 == 185_600,
        fiesta_points()[fiesta_peak_index()].1 == 290_000,
        fiesta_points()[55].1 == 194_400,
{
    reveal(fiesta_points);
}


/// Taking a prefix of at least two samples keeps a curve well-formed.
pub proof fn lemma_curve_wf_take(s: Seq<(u64, i64)>, n: int)
    requires
        curve_wf(s),
        2 <= n <= s.len(),
    ensures
        curve_wf(s.take(n)),
{
    let t = s.take(n);
    assert forall|i: int| 0 <= i < t.len() - 1 implies #[trigger] t[i].0 < t[i + 1].0 by {
        assert(s[i].0 < s[i + 1].0);
    }
    assert forall|i: int|
        0 <= i < t.len() implies (#[trigger] t[i].0 <= RPM_SAMPLE_MAX && 0 <= t[i].1
            <= TORQUE_SAMPLE_MAX) by {
        assert(s[i].0 <= RPM_SAMPLE_MAX && 0 <= s[i].1 <= TORQUE_SAMPLE_MAX);
    }
}

/// Skipping samples from the front, short of the last two, keeps a curve
/// well-formed.
pub proof fn lemma_curve_wf_skip(s: Seq<(u64, i64)>, k: int)
    requires
        curve_wf(s),
        0 <= k <= s.len() - 2,
    ensures
        curve_wf(s.skip(k)),
{
    let t = s.skip(k);
    assert forall|i: int| 0 <= i < t.len() - 1 implies #[trigger] t[i].0 < t[i + 1].0 by {
        assert(s[k + i].0 < s[k + i + 1].0);
    }
    assert forall|i: int|
        0 <= i < t.len() implies (#[trigger] t[i].0 <= RPM_SAMPLE_MAX && 0 <= t[i].1
            <= TORQUE_SAMPLE_MAX) by {
        assert(s[k + i].0 <= RPM_SAMPLE_MAX && 0 <= s[k + i].1 <= TORQUE_SAMPLE_MAX);
    }
}

/// Below the rpm of sample `k`, the torque of a curve equals the torque of
/// its prefix ending at sample `k`.
pub proof fn lemma_torque_take(s: Seq<(u64, i64)>, rpm: int, k: int)
    requires
        curve_wf(s),
        1 <= k < s.len(),
        rpm < s[k].0,
    ensures
        torque_of(s, rpm) == torque_of(s.take(k + 1), rpm),
    decreases s.len(),
{
    let t = s.take(k + 1);
    lemma_curve_wf_take(s, k + 1);
    lemma_sorted(s, k, s.len() - 1);
    assert(rpm < s[s.len() - 1].0);
    if rpm < s[0].0 {
    } else if rpm < s[1].0 {
    } else {
        lemma_sorted(s, 1, k);
        assert(s[1].0 < s[k].0);
        assert(k >= 2);
        lemma_curve_wf_drop(s);
        lemma_torque_take(s.drop_first(), rpm, k - 1);
        assert(s.drop_first().take(k) =~= t.drop_first());
        assert(t[1] == s[1]);
        assert(t[t.len() - 1] == s[k]);
    }
}

/// At or above the rpm of sample `k`, the torque of a curve equals the
/// torque of its suffix starting at sample `k`.
pub proof fn lemma_torque_skip(s: Seq<(u64, i64)>, rpm: int, k: int)
    requires
        curve_wf(s),
        0 <= k <= s.len() - 2,
        s[k].0 <= rpm,
    ensures
        torque_of(s, rpm) == torque_of(s.skip(k), rpm),
    decreases k,
{
    lemma_curve_wf_skip(s, k);
    if k == 0 {
        assert(s.skip(0) =~= s);
    } else {
        lemma_sorted(s, 0, k);
        lemma_sorted(s, 1, k);
        if rpm >= s[s.len() - 1].0 {
            let t = s.skip(k);
            assert(t[t.len() - 1] == s[s.len() - 1]);
            lemma_torque_flat_above(s, rpm);
            lemma_torque_flat_above(t, rpm);
        } else {
            lemma_curve_wf_drop(s);
            lemma_torque_skip(s.drop_first(), rpm, k - 1);
            assert(s.drop_first().skip(k - 1) =~= s.skip(k));
        }
    }
}

/// Within one segment, interpolation is monotone in the direction of its
/// torque delta.
pub proof fn lemma_interp_monotone(lo: (u64, i64), hi: (u64, i64), r1: int, r2: int)
    requires
        lo.0 <= r1 <= r2 < hi.0,
    ensures
        hi.1 >= lo.1 ==> interp(lo, hi, r1) <= interp(lo, hi, r2),
        hi.1 <= lo.1 ==> interp(lo, hi, r1) >= interp(lo, hi, r2),
{
    let s1 = r1 - lo.0;
    let s2 = r2 - lo.0;
    let drange = hi.0 - lo.0;
    let trange = hi.1 - lo.1;
    if trange >= 0 {
        assert(s1 * trange <= s2 * trange) by (nonlinear_arith)
            requires
                0 <= s1 <= s2,
                trange >= 0,
        ;
        crate::fixed::lemma_div_trunc_ordered(s1 * trange, s2 * trange, drange);
        if trange == 0 {
            assert(s1 * trange == 0 && s2 * trange == 0) by (nonlinear_arith)
                requires
                    trange == 0,
            ;
        }
    } else {
        assert(s2 * trange <= s1 * trange) by (nonlinear_arith)
            requires
                0 <= s1 <= s2,
                trange < 0,
        ;
        crate::fixed::lemma_div_trunc_ordered(s2 * trange, s1 * trange, drange);
    }
}

/// A curve whose torques never decrease from one sample to the next.
pub open spec fn curve_nondecreasing(s: Seq<(u64, i64)>) -> bool {
    forall|i: int| 0 <= i < s.len() - 1 ==> #[trigger] s[i].1 <= s[i + 1].1
}

/// A curve whose torques never increase from one sample to the next.
pub open spec fn curve_nonincreasing(s: Seq<(u64, i64)>) -> bool {
    forall|i: int| 0 <= i < s.len() - 1 ==> #[trigger] s[i].1 >= s[i + 1].1
}

/// On a non-decreasing curve the first torque is the least sample torque
/// and the last the greatest.
pub proof fn lemma_nondecreasing_ends(s: Seq<(u64, i64)>)
    requires
        s.len() >= 1,
        curve_nondecreasing(s),
    ensures
        s[0].1 <= s[s.len() - 1].1,
    decreases s.len(),
{
    if s.len() > 1 {
        assert(s[0].1 <= s[1].1);
        assert(curve_nondecreasing(s.drop_first())) by {
            assert forall|i: int|
                0 <= i < s.drop_first().len() - 1 implies #[trigger] s.drop_first()[i].1
                <= s.drop_first()[i + 1].1 by {
                assert(s[i + 1].1 <= s[i + 2].1);
            }
        }
        lemma_nondecreasing_ends(s.drop_first());
    }
}

/// On a non-increasing curve the first torque is the greatest sample torque
/// and the last the least.
pub proof fn lemma_nonincreasing_ends(s: Seq<(u64, i64)>)
    requires
        s.len() >= 1,
        curve_nonincreasing(s),
    ensures
        s[0].1 >= s[s.len() - 1].1,
    decreases s.len(),
{
    if s.len() > 1 {
        assert(s[0].1 >= s[1].1);
        assert(curve_nonincreasing(s.drop_first())) by {
            assert forall|i: int|
                0 <= i < s.drop_first().len() - 1 implies #[trigger] s.drop_first()[i].1
                >= s.drop_first()[i + 1].1 by {
                assert(s[i + 1].1 >= s[i + 2].1);
            }
        }
        lemma_nonincreasing_ends(s.drop_first());
    }
}

/// Dropping the first sample preserves monotonicity of the torques.
pub proof fn lemma_monotone_drop(s: Seq<(u64, i64)>)
    requires
        s.len() >= 2,
    ensures
        curve_nondecreasing(s) ==> curve_nondecreasing(s.drop_first()),
        curve_nonincreasing(s) ==> curve_nonincreasing(s.drop_first()),
{
    if curve_nondecreasing(s) {
        assert forall|i: int|
            0 <= i < s.drop_first().len() - 1 implies #[trigger] s.drop_first()[i].1
            <= s.drop_first()[i + 1].1 by {
            assert(s[i + 1].1 <= s[i + 2].1);
        }
    }
    if curve_nonincreasing(s) {
        assert forall|i: int|
            0 <= i < s.drop_first().len() - 1 implies #[trigger] s.drop_first()[i].1
            >= s.drop_first()[i + 1].1 by {
            assert(s[i + 1].1 >= s[i + 2].1);
        }
    }
}

/// On a non-decreasing curve the torque at any rpm stays between the first
/// and last sample torques.
pub proof fn lemma_torque_bounds_nondecreasing(s: Seq<(u64, i64)>, rpm: int)
    requires
        curve_wf(s),
        curve_nondecreasing(s),
    ensures
        s[0].1 <= torque_of(s, rpm) <= s[s.len() - 1].1,
    decreases s.len(),
{
    lemma_nondecreasing_ends(s);
    if rpm < s[0].0 {
    } else if rpm >= s[s.len() - 1].0 {
    } else if rpm < s[1].0 {
        lemma_interp_between(s[0], s[1], rpm);
        lemma_monotone_drop(s);
        lemma_nondecreasing_ends(s.drop_first());
    } else {
        lemma_curve_wf_drop(s);
        lemma_monotone_drop(s);
        lemma_torque_bounds_nondecreasing(s.drop_first(), rpm);
    }
}

/// On a non-increasing curve the torque at any rpm stays between the last
/// and first sample torques.
pub proof fn lemma_torque_bounds_nonincreasing(s: Seq<(u64, i64)>, rpm: int)
    requires
        curve_wf(s),
        curve_nonincreasing(s),
    ensures
        s[s.len() - 1].1 <= torque_of(s, rpm) <= s[0].1,
    decreases s.len(),
{
    lemma_nonincreasing_ends(s);
    if rpm < s[0].0 {
    } else if rpm >= s[s.len() - 1].0 {
    } else if rpm < s[1].0 {
        lemma_interp_between(s[0], s[1], rpm);
        lemma_monotone_drop(s);
        lemma_nonincreasing_ends(s.drop_first());
    } else {
        lemma_curve_wf_drop(s);
        lemma_monotone_drop(s);
        lemma_torque_bounds_nonincreasing(s.drop_first(), rpm);
    }
}

/// On a non-decreasing curve the interpolated torque is monotone in rpm.
pub proof fn lemma_torque_monotone_nondecreasing(s: Seq<(u64, i64)>, r1: int, r2: int)
    requires
        curve_wf(s),
        curve_nondecreasing(s),
        r1 <= r2,
    ensures
        torque_of(s, r1) <= torque_of(s, r2),
    decreases s.len(),
{
    if r2 < s[0].0 {
    } else if r1 < s[0].0 {
        lemma_torque_bounds_nondecreasing(s, r2);
    } else if r1 >= s[s.len() - 1].0 {
    } else if r2 >= s[s.len() - 1].0 {
        lemma_torque_bounds_nondecreasing(s, r1);
    } else if r2 < s[1].0 {
        lemma_interp_monotone(s[0], s[1], r1, r2);
    } else if r1 < s[1].0 {
        lemma_interp_between(s[0], s[1], r1);
        lemma_curve_wf_drop(s);
        lemma_monotone_drop(s);
        lemma_torque_bounds_nondecreasing(s.drop_first(), r2);
        lemma_sorted(s, 1, s.len() - 1);
    } else {
        lemma_curve_wf_drop(s);
        lemma_monotone_drop(s);
        lemma_torque_monotone_nondecreasing(s.drop_first(), r1, r2);
    }
}

/// On a non-increasing curve the interpolated torque is antitone in rpm.
pub proof fn lemma_torque_monotone_nonincreasing(s: Seq<(u64, i64)>, r1: int, r2: int)
    requires
        curve_wf(s),
        curve_nonincreasing(s),
        r1 <= r2,
    ensures
        torque_of(s, r1) >= torque_of(s, r2),
    decreases s.len(),
{
    if r2 < s[0].0 {
    } else if r1 < s[0].0 {
        lemma_torque_bounds_nonincreasing(s, r2);
    } else if r1 >= s[s.len() - 1].0 {
    } else if r2 >= s[s.len() - 1].0 {
        lemma_torque_bounds_nonincreasing(s, r1);
    } else if r2 < s[1].0 {
        lemma_interp_monotone(s[0], s[1], r1, r2);
    } else if r1 < s[1].0 {
        lemma_interp_between(s[0], s[1], r1);
        lemma_curve_wf_drop(s);
        lemma_monotone_drop(s);
        lemma_torque_bounds_nonincreasing(s.drop_first(), r2);
        lemma_sorted(s, 1, s.len() - 1);
    } else {
        lemma_curve_wf_drop(s);
        lemma_monotone_drop(s);
        lemma_torque_monotone_nonincreasing(s.drop_first(), r1, r2);
    }
}

/// Below the peak of the measured curve, torque never decreases with rpm.
pub proof fn lemma_fiesta_nondecreasing_below_peak(r1: int, r2: int)
    requires
        r1 <= r2 <= 4_000_000,
    ensures
        fiesta_torque(r1) <= fiesta_torque(r2),
{
    lemma_fiesta_shape();
    let s = fiesta_points();
    let t = s.take(fiesta_peak_index() + 1);
    lemma_curve_wf_take(s, fiesta_peak_index() + 1);
    assert(curve_nondecreasing(t)) by {
        assert forall|i: int| 0 <= i < t.len() - 1 implies #[trigger] t[i].1 <= t[i + 1].1 by {
            assert(s[i].1 <= s[i + 1].1);
        }
    }
    if r2 < 4_000_000 {
        lemma_torque_take(s, r1, fiesta_peak_index());
        lemma_torque_take(s, r2, fiesta_peak_index());
        lemma_torque_monotone_nondecreasing(t, r1, r2);
    } else {
        lemma_torque_exact_at_sample(s, fiesta_peak_index());
        if r1 < 4_000_000 {
            lemma_torque_take(s, r1, fiesta_peak_index());
            lemma_torque_bounds_nondecreasing(t, r1);
            assert(t[t.len() - 1] == s[fiesta_peak_index()]);
        }
    }
}

/// From the peak of the measured curve on, torque never increases with rpm.
pub proof fn lemma_fiesta_nonincreasing_at_tail(r1: int, r2: int)
    requires
        4_000_000 <= r1 <= r2,
    ensures
        fiesta_torque(r1) >= fiesta_torque(r2),
{
    lemma_fiesta_shape();
    let s = fiesta_points();
    let t = s.skip(fiesta_peak_index());
    lemma_curve_wf_skip(s, fiesta_peak_index());
    assert(curve_nonincreasing(t)) by {
        assert forall|i: int| 0 <= i < t.len() - 1 implies #[trigger] t[i].1 >= t[i + 1].1 by {
            assert(s[fiesta_peak_index() + i].1 >= s[fiesta_peak_index() + i + 1].1);
        }
    }
    lemma_torque_skip(s, r1, fiesta_peak_index());
    lemma_torque_skip(s, r2, fiesta_peak_index());
    lemma_torque_monotone_nonincreasing(t, r1, r2);
}

/// Outside the measured range the torque of the measured curve is flat: the
/// first sample's value below 1000 rpm, the last sample's at or above the
/// redline.
pub proof fn lemma_fiesta_flat_extrapolation(rpm: int)
    ensures
        rpm <= 1_000_000 ==> fiesta_torque(rpm) == 185_600,
        rpm >= MAX_RPM_MILLI ==> fiesta_torque(rpm) == 194_400,
{
    lemma_fiesta_shape();
    if rpm <= 1_000_000 {
        lemma_torque_flat_below(fiesta_points(), rpm);
    }
    if rpm >= MAX_RPM_MILLI {
        lemma_torque_flat_above(fiesta_points(), rpm);
    }
}

/// An engine torque curve held as runtime data.
pub struct TorqueCurve {
    pub points: Vec<(u64, i64)>,
}

impl TorqueCurve {
    /// A well-formed curve.
    pub open spec fn wf(self) -> bool {
        curve_wf(self.points@)
    }

    /// The torque at the given engine speed, by flat extrapolation outside
    /// the sampled range and linear interpolation between the bracketing
    /// samples inside it.
    #[verifier::rlimit(60)]
    pub fn torque_at(&self, rpm_milli: u64) -> (t: i64)
        requires
            self.wf(),
        ensures
            t == torque_of(self.points@, rpm_milli as int),
            0 <= t <= TORQUE_SAMPLE_MAX,
    {
        proof {
            lemma_torque_of_in_range(self.points@, rpm_milli as int);
        }
        let ghost s = self.points@;
        let n: usize = self.points.len();
        if rpm_milli < self.points[0].0 {
            return self.points[0].1;
        }
        if rpm_milli >= self.points[n - 1].0 {
            return self.points[n - 1].1;
        }
        let mut i: usize = 0;
        proof {
            assert(s.skip(0) =~= s);
        }
        while i + 2 < n && self.points[i + 1].0 <= rpm_milli
            invariant
                self.wf(),
                s == self.points@,
                n == s.len(),
                2 <= n,
                0 <= i,
                i + 1 < n,
                s[i as int].0 <= rpm_milli,
                s[0].0 <= rpm_milli,
                rpm_milli < s[n - 1].0,
                torque_of(s, rpm_milli as int) == torque_of(s.skip(i as int), rpm_milli as int),
            decreases n - i,
        {
            proof {
                let t = s.skip(i as int);
                assert(t.len() == n - i >= 3);
                assert(t[0] == s[i as int]);
                assert(t[1] == s[i + 1]);
                assert(t[t.len() - 1] == s[n - 1]);
                assert(t.drop_first() =~= s.skip(i + 1));
            }
            i = i + 1;
        }
        proof {
            let t = s.skip(i as int);
            assert(t.len() == n - i >= 2);
            assert(t[0] == s[i as int]);
            assert(t[1] == s[i + 1]);
            assert(t[t.len() - 1] == s[n - 1]);
            if i + 2 < n {
                assert(s[i + 1].0 > rpm_milli);
            } else {
                assert(i + 1 == n - 1);
            }
            assert(rpm_milli < s[i + 1].0);
            if t.len() > 2 {
                lemma_sorted(s, i + 1, n - 1);
            }
            assert(torque_of(t, rpm_milli as int) == interp(
                s[i as int],
                s[i + 1],
                rpm_milli as int,
            ));
        }
        let lo: (u64, i64) = self.points[i];
        let hi: (u64, i64) = self.points[i + 1];
        let spot: u64 = rpm_milli - lo.0;
        let drange: u64 = hi.0 - lo.0;
        let trange: i64 = hi.1 - lo.1;
        let prod: i128 = mul_wide(spot as i64, trange);
        proof {
            assert(spot < drange);
            if trange >= 0 {
                assert(0 <= (spot as int) * (trange as int) <= (trange as int) * (drange as int))
                    by (nonlinear_arith)
                    requires
                        0 <= spot <= drange,
                        0 <= trange,
                ;
            } else {
                assert((trange as int) * (drange as int) <= (spot as int) * (trange as int)
                    <= 0) by (nonlinear_arith)
                    requires
                        0 <= spot <= drange,
                        trange < 0,
                ;
                assert(-((-(trange as int)) * (drange as int)) == (trange as int) * (
                drange as int)) by (nonlinear_arith);
                assert((trange as int) * (drange as int) >= -1_000_000_000_000_000_000int)
                    by (nonlinear_arith)
                    requires
                        -10_000_000 <= trange < 0,
                        0 < drange <= 100_000_000,
                ;
            }
            crate::fixed::lemma_div_trunc_quotient_bound(
                prod as int,
                drange as int,
                if trange >= 0 {
                    trange as int
                } else {
                    -(trange as int)
                },
            );
        }
        let q: i128 = div_trunc_i128(prod, drange);
        lo.1 + (q as i64)
    }
}

impl TorqueCurve {
    /// The measured curve of the model's engine, as runtime data.
    pub fn fiesta() -> (c: TorqueCurve)
        ensures
            c.points@ == fiesta_points(),
            c.wf(),
    {
        let points: Vec<(u64, i64)> = vec![
            (1000000u64, 185600i64),
            (1100000u64, 210900i64),
            (1200000u64, 232000i64),
            (1300000u64, 249800i64),
            (1400000u64, 265100i64),
            (1500000u64, 278400i64),
            (1600000u64, 290000i64),
            (1700000u64, 290000i64),
            (1800000u64, 290000i64),
            (1900000u64, 290000i64),
            (2000000u64, 290000i64),
            (2100000u64, 290000i64),
            (2200000u64, 290000i64),
            (2300000u64, 290000i64),
            (2400000u64, 290000i64),
            (2500000u64, 290000i64),
            (2600000u64, 290000i64),
            (2700000u64, 290000i64),
            (2800000u64, 290000i64),
            (2900000u64, 290000i64),
            (3000000u64, 290000i64),
            (3100000u64, 290000i64),
            (3200000u64, 290000i64),
            (3300000u64, 290000i64),
            (3400000u64, 290000i64),
            (3500000u64, 290000i64),
            (3600000u64, 290000i64),
            (3700000u64, 290000i64),
            (3800000u64, 290000i64),
            (3900000u64, 290000i64),
            (4000000u64, 290000i64),
            (4100000u64, 289900i64),
            (4200000u64, 289400i64),
            (4300000u64, 288700i64),
            (4400000u64, 287800i64),
            (4500000u64, 286500i64),
            (4600000u64, 285000i64),
            (4700000u64, 283100i64),
            (4800000u64, 281000i64),
            (4900000u64, 278600i64),
            (5000000u64, 276000i64),
            (5100000u64, 273000i64),
            (5200000u64, 269800i64),
            (5300000u64, 264900i64),
            (5400000u64, 259900i64),
            (5500000u64, 255200i64),
            (5600000u64, 250700i64),
            (5700000u64, 246300i64),
            (5800000u64, 242000i64),
            (5900000u64, 237900i64),
            (6000000u64, 234000i64),
            (6100000u64, 229200i64),
            (6200000u64, 222800i64),
            (6300000u64, 214800i64),
            (6400000u64, 205300i64),
            (6500000u64, 194400i64),
        ];
        proof {
            reveal(fiesta_points);
            assert(points@ =~= fiesta_points());
            lemma_fiesta_shape();
        }
        TorqueCurve { points }
    }
}

/// The hard engine speed ceiling in milli-rpm.
pub fn get_max_rpm() -> (r: u64)
    ensures
        r == MAX_RPM_MILLI,
{
    MAX_RPM_MILLI
}

/// The torque of the model's engine at the given engine speed, in
/// milli-newton-metres.
pub fn get_torque(rpm_milli: u64) -> (t: i64)
    ensures
        t == fiesta_torque(rpm_milli as int),
        0 <= t <= TORQUE_SAMPLE_MAX,
{
    let curve = TorqueCurve::fiesta();
    curve.torque_at(rpm_milli)
}


} // verus!
