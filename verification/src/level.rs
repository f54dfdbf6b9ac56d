//! The level calculator: maps a raw press count to an output percentage.

use vstd::prelude::*;
use vstd::arithmetic::div_mod::lemma_div_is_ordered;

verus! {

/// The press count at which the output saturates at 100%.
pub const MAX_PRESS: u32 = 110;

/// The output percentage for a press count: a linear scale of 100/110 per
/// press, truncated, saturating at 100 once the count reaches `MAX_PRESS`.
pub open spec fn spec_output_pct(count: u32) -> u32 {
    if count >= MAX_PRESS {
        100u32
    } else {
        ((count * 100) / (MAX_PRESS as int)) as u32
    }
}

/// Compute the output percentage in 0..=100 for a raw press count.
///
/// Below the saturation threshold the result is exactly
/// `floor(count * 100 / 110)`; at or above it the result is 100.
pub fn compute_output_pct(count: u32) -> (pct: u32)
    ensures
        pct == spec_output_pct(count),
        pct <= 100,
        count < MAX_PRESS ==> pct == (count * 100) / (MAX_PRESS as int),
        count >= MAX_PRESS ==> pct == 100,
{
    if count >= MAX_PRESS {
        100
    } else {
        proof {
            lemma_div_is_ordered(count * 100, 10900, MAX_PRESS as int);
        }
        (count * 100) / MAX_PRESS
    }
}

/// The level never exceeds 100%, whatever the count.
pub proof fn lemma_output_pct_bounded(count: u32)
    ensures
        spec_output_pct(count) <= 100,
{
    if count < MAX_PRESS {
        lemma_div_is_ordered(count * 100, 10900, MAX_PRESS as int);
    }
}

/// The level is monotonic: a larger press count never gives a smaller
/// output percentage.
pub proof fn lemma_output_pct_monotonic(a: u32, b: u32)
    requires
        a <= b,
    ensures
        spec_output_pct(a) <= spec_output_pct(b),
{
    lemma_output_pct_bounded(a);
    if a < MAX_PRESS && b < MAX_PRESS {
        lemma_div_is_ordered(a * 100, b * 100, MAX_PRESS as int);
    }
}

/// The level is a pure function of the count: equal inputs always give
/// equal outputs, with no hidden state.
pub proof fn lemma_output_pct_deterministic(a: u32, b: u32)
    requires
        a == b,
    ensures
        spec_output_pct(a) == spec_output_pct(b),
{
}

} // verus!
