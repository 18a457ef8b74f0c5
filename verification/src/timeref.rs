//! Reference timestamps and the arithmetic that turns a network time sample
//! plus a measured elapsed duration into the capture instant.

use vstd::prelude::*;

use vstd::arithmetic::div_mod::lemma_div_by_multiple;
use vstd::arithmetic::div_mod::lemma_div_is_ordered;
use vstd::arithmetic::div_mod::lemma_div_multiples_vanish_fancy;
use vstd::arithmetic::div_mod::lemma_fundamental_div_mod;
use vstd::arithmetic::mul::lemma_mul_inequality;

verus! {

/// A trusted wall-clock sample: whole seconds since the epoch and a
/// sub-second fraction where the full `u32` range stands for 0.0..=1.0s.
#[derive(Debug)]
pub struct ReferenceTimestamp {
    pub seconds: u64,
    pub subsecond_fraction: u32,
}

/// Milliseconds named by a sub-second fraction, rounded toward zero.
pub open spec fn fraction_millis(fraction: u32) -> int {
    fraction * 1000 / 0xFFFF_FFFF
}

/// The capture instant in whole seconds: reference seconds plus the whole
/// seconds of the combined sub-second and elapsed milliseconds.
pub open spec fn capture_instant(reference: ReferenceTimestamp, elapsed_ms: u64) -> int {
    reference.seconds + (fraction_millis(reference.subsecond_fraction) + elapsed_ms) / 1000
}

/// The sub-second milliseconds of any fraction are at most one whole second.
pub proof fn lemma_fraction_millis_bound(fraction: u32)
    ensures
        0 <= fraction_millis(fraction) <= 1000,
{
    lemma_mul_inequality(fraction as int, 0xFFFF_FFFF, 1000);
    lemma_div_is_ordered(fraction * 1000, 0xFFFF_FFFFint * 1000, 0xFFFF_FFFF);
    lemma_div_by_multiple(1000, 0xFFFF_FFFF);
}

/// Converts a sub-second fraction to whole milliseconds, rounding toward zero.
pub fn fraction_to_millis(fraction: u32) -> (ms: u64)
    ensures
        ms == fraction_millis(fraction),
        ms <= 1000,
{
    proof {
        lemma_fraction_millis_bound(fraction);
    }
    ((fraction as u64) * 1000) / 0xFFFF_FFFF
}

/// The capture instant is the reference seconds plus the elapsed whole
/// seconds, plus one more second exactly when the sub-second milliseconds
/// and the elapsed remainder together overflow a whole second.
pub proof fn lemma_capture_instant_carry(reference: ReferenceTimestamp, elapsed_ms: u64)
    ensures
        capture_instant(reference, elapsed_ms) == reference.seconds + elapsed_ms / 1000 + (
        if fraction_millis(reference.subsecond_fraction) + elapsed_ms % 1000 >= 1000 {
            1int
        } else {
            0int
        }),
{
    let f = fraction_millis(reference.subsecond_fraction);
    let q = elapsed_ms as int / 1000;
    let r = elapsed_ms as int % 1000;
    lemma_fraction_millis_bound(reference.subsecond_fraction);
    lemma_fundamental_div_mod(elapsed_ms as int, 1000);
    assert(f + elapsed_ms == 1000 * q + (f + r));
    if f + r < 1000 {
        lemma_div_multiples_vanish_fancy(q, f + r, 1000);
    } else {
        assert(f + elapsed_ms == 1000 * (q + 1) + (f + r - 1000));
        lemma_div_multiples_vanish_fancy(q + 1, f + r - 1000, 1000);
    }
}

/// Computes the capture instant from a reference sample and the elapsed
/// milliseconds measured by the capture session.
pub fn capture_instant_seconds(reference: &ReferenceTimestamp, elapsed_ms: u64) -> (s: u64)
    requires
        elapsed_ms <= u64::MAX - 1000,
        capture_instant(*reference, elapsed_ms) <= u64::MAX,
    ensures
        s == capture_instant(*reference, elapsed_ms),
{
    let fraction_ms: u64 = fraction_to_millis(reference.subsecond_fraction);
    reference.seconds + (fraction_ms + elapsed_ms) / 1000
}

} // verus!
