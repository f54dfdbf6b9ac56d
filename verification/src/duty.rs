//! The tri-channel split: one output percentage becomes three duty values,
//! one per channel, filling the channels in order.

use vstd::prelude::*;

verus! {

/// The percentage scaled by three, saturating at `u32::MAX`.
pub open spec fn spec_scaled(pct: u32) -> u32 {
    if pct * 3 > u32::MAX {
        u32::MAX
    } else {
        (pct * 3) as u32
    }
}

/// `a - b`, floored at zero.
pub open spec fn spec_sat_sub(a: u32, b: u32) -> u32 {
    if a >= b {
        (a - b) as u32
    } else {
        0u32
    }
}

/// The smaller of two values.
pub open spec fn spec_min(a: u32, b: u32) -> u32 {
    if a < b {
        a
    } else {
        b
    }
}

/// Duty of the first channel: fills first, full once the scaled level
/// reaches 100.
pub open spec fn spec_duty0(pct: u32) -> u32 {
    spec_min(spec_scaled(pct), 100)
}

/// Duty of the second channel: rises only after the first is full.
pub open spec fn spec_duty1(pct: u32) -> u32 {
    spec_min(spec_sat_sub(spec_scaled(pct), 100), 100)
}

/// Duty of the third channel: rises only after the second is full.
pub open spec fn spec_duty2(pct: u32) -> u32 {
    spec_min(spec_sat_sub(spec_scaled(pct), 200), 100)
}

/// The total "on" mass of the three channels.
pub open spec fn spec_duty_sum(pct: u32) -> int {
    spec_duty0(pct) + spec_duty1(pct) + spec_duty2(pct)
}

/// Split one percentage into the three channel duties.
///
/// For a percentage in 0..=100 the duties add up to exactly three times
/// the percentage, and the channels fill in order: a later channel is lit
/// only once the one before it is full.
pub fn split_duties(pct: u32) -> (d: (u32, u32, u32))
    ensures
        d.0 == spec_duty0(pct),
        d.1 == spec_duty1(pct),
        d.2 == spec_duty2(pct),
        d.0 <= 100 && d.1 <= 100 && d.2 <= 100,
        pct <= 100 ==> d.0 + d.1 + d.2 == 3 * pct,
        d.1 > 0 ==> d.0 == 100,
        d.2 > 0 ==> d.1 == 100,
{
    let scaled: u32 = if pct > u32::MAX / 3 {
        u32::MAX
    } else {
        pct * 3
    };
    let d0: u32 = if scaled < 100 {
        scaled
    } else {
        100
    };
    let over1: u32 = if scaled >= 100 {
        scaled - 100
    } else {
        0
    };
    let d1: u32 = if over1 < 100 {
        over1
    } else {
        100
    };
    let over2: u32 = if scaled >= 200 {
        scaled - 200
    } else {
        0
    };
    let d2: u32 = if over2 < 100 {
        over2
    } else {
        100
    };
    (d0, d1, d2)
}

/// The tri-channel split invariant: over percentages in 0..=100 the total
/// duty is exactly three times the percentage, hence non-decreasing; at 0%
/// every channel is dark and at 100% every channel is full.
pub proof fn lemma_duty_sum_monotonic(p: u32, q: u32)
    requires
        p <= q <= 100,
    ensures
        spec_duty_sum(p) == 3 * p,
        spec_duty_sum(q) == 3 * q,
        spec_duty_sum(p) <= spec_duty_sum(q),
        spec_duty0(0) == 0 && spec_duty1(0) == 0 && spec_duty2(0) == 0,
        spec_duty0(100) == 100 && spec_duty1(100) == 100 && spec_duty2(100) == 100,
{
}

} // verus!
