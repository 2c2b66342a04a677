//! Angle/time conversion: pure fixed-point arithmetic relating rotational
//! speed, angular distance, and timer ticks through the relation
//! `time_ticks = angle_ticks * 1_000_000 / (speed_rpm * 6)`, computed with a
//! widened intermediate so that no step can overflow. Integer division
//! truncates toward zero; narrowing to a hardware register width saturates.

use vstd::prelude::*;
use crate::cmn::REV_TICKS;

verus! {

/// Convert a rotational speed and an angular distance into a duration in
/// time ticks. Callers clamp a speed of 0 to 1 before calling (the
/// zero-speed guard), so the divisor is never 0.
pub fn speed_angle_to_ticks(spd: u32, ag: u32) -> (r: u64)
    requires
        spd >= 1,
    ensures
        r == (ag as int) * 1_000_000 / ((spd as int) * 6),
{
    proof {
        assert((ag as int) * 1_000_000 <= 0xFFFF_FFFFint * 1_000_000) by (nonlinear_arith)
            requires
                ag <= 0xFFFF_FFFFu32,
        ;
        assert((spd as int) * 6 <= 0xFFFF_FFFFint * 6) by (nonlinear_arith)
            requires
                spd <= 0xFFFF_FFFFu32,
        ;
        assert((spd as int) * 6 >= 6) by (nonlinear_arith)
            requires
                spd >= 1,
        ;
    }
    ((ag as u64) * 1_000_000) / ((spd as u64) * 6)
}

/// Convert a rotational speed and a duration in time ticks into the angular
/// distance covered, saturating at the largest representable value.
pub fn speed_time_to_angle(spd: u32, ti: u64) -> (r: u64)
    ensures
        r == ({
            let v = (spd as int) * 6 * (ti as int) / 1_000_000;
            if v > u64::MAX as int {
                u64::MAX as int
            } else {
                v
            }
        }),
{
    proof {
        assert((spd as int) * 6 * (ti as int) <= 0xFFFF_FFFFint * 6 * 0xFFFF_FFFF_FFFF_FFFFint)
            by (nonlinear_arith)
            requires
                spd <= 0xFFFF_FFFFu32,
                ti <= 0xFFFF_FFFF_FFFF_FFFFu64,
        ;
    }
    let wide: u128 = (spd as u128) * 6 * (ti as u128);
    let q: u128 = wide / 1_000_000;
    if q > u64::MAX as u128 {
        u64::MAX
    } else {
        q as u64
    }
}

/// Convert an angular distance and the duration it took into the rotational
/// speed in RPM, saturating at the largest representable value.
pub fn time_angle_to_speed(ag: u32, ti: u64) -> (r: u32)
    requires
        ti >= 1,
    ensures
        r == ({
            let v = (ag as int) * 1_000_000 / (6 * (ti as int));
            if v > u32::MAX as int {
                u32::MAX as int
            } else {
                v
            }
        }),
{
    let num: u128 = (ag as u128) * 1_000_000;
    let den: u128 = 6 * (ti as u128);
    let q: u128 = num / den;
    proof {
        assert((ag as int) * 1_000_000 <= 0xFFFF_FFFFint * 1_000_000) by (nonlinear_arith)
            requires
                ag <= 0xFFFF_FFFFu32,
        ;
    }
    if q > u32::MAX as u128 {
        u32::MAX
    } else {
        q as u32
    }
}

/// Narrow a tick count to a 16-bit hardware register width, saturating at the
/// maximum representable value rather than wrapping.
pub fn sat_u16(v: u64) -> (r: u16)
    ensures
        r == if v > u16::MAX as u64 {
            u16::MAX as int
        } else {
            v as int
        },
{
    if v > u16::MAX as u64 {
        u16::MAX
    } else {
        v as u16
    }
}

/// Law: converting a speed to a duration over an angle and back recovers the
/// speed to within one RPM, for representative speeds and angles whose
/// product keeps the truncation error of the first conversion under one RPM.
pub proof fn lemma_speed_round_trip(spd: int, ag: int)
    requires
        100 <= spd <= 8000,
        1 <= ag <= REV_TICKS as int,
        ag * 1_000_000 >= 3 * spd * (spd + 2),
    ensures
        ({
            let t = ag * 1_000_000 / (spd * 6);
            let r = ag * 1_000_000 / (6 * t);
            spd <= r <= spd + 1
        }),
{
    let n = ag * 1_000_000;
    let d = spd * 6;
    let t = n / d;
    assert(n >= 3 * spd * (spd + 2) >= d) by (nonlinear_arith)
        requires
            spd >= 100,
            n >= 3 * spd * (spd + 2),
            d == spd * 6,
    ;
    vstd::arithmetic::div_mod::lemma_fundamental_div_mod(n, d);
    // n == d * t + (n % d), with 0 <= n % d < d
    vstd::arithmetic::div_mod::lemma_mod_division_less_than_divisor(n, d);
    assert(d * t <= n < d * (t + 1)) by (nonlinear_arith)
        requires
            n == d * t + (n % d),
            0 <= n % d < d,
    ;
    // t is at least 1, so the second division is defined
    assert(t >= 1) by (nonlinear_arith)
        requires
            d * t <= n,
            n < d * (t + 1),
            n >= d,
            d > 0,
    ;
    // from n >= 3*spd*(spd+2): 6*spd*t > 3*spd*spd, hence 2*t >= spd + 1
    assert(2 * t >= spd + 1) by (nonlinear_arith)
        requires
            n < d * (t + 1),
            n >= 3 * spd * (spd + 2),
            d == spd * 6,
            spd > 0,
            t >= 1,
    ;
    // upper bound: n < 6*t*(spd+2), so n / (6*t) <= spd + 1
    assert(n <= (spd + 1) * (6 * t) + (6 * t - 1)) by (nonlinear_arith)
        requires
            n < d * (t + 1),
            d == spd * 6,
            2 * t >= spd + 1,
            t >= 1,
            spd > 0,
    ;
    assert(n / (6 * t) <= spd + 1) by {
        vstd::arithmetic::div_mod::lemma_div_is_ordered(n, (spd + 1) * (6 * t) + (6 * t - 1), 6 * t);
        vstd::arithmetic::div_mod::lemma_fundamental_div_mod_converse(
            (spd + 1) * (6 * t) + (6 * t - 1),
            6 * t,
            spd + 1,
            6 * t - 1,
        );
    }
    // lower bound: n >= spd * (6*t), so n / (6*t) >= spd
    assert(spd * (6 * t) <= n) by (nonlinear_arith)
        requires
            d * t <= n,
            d == spd * 6,
    ;
    assert(n / (6 * t) >= spd) by {
        vstd::arithmetic::div_mod::lemma_div_is_ordered(spd * (6 * t), n, 6 * t);
        vstd::arithmetic::div_mod::lemma_div_by_multiple(spd, 6 * t);
    }
}

} // verus!
