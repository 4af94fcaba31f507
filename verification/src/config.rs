//! Session parameters: the fixed-point amplitude scale, the detection
//! hysteresis constant, and normalization of the two user-supplied knobs.

use vstd::prelude::*;

verus! {

/// Fixed-point amplitude scale: 1000 milliunits represent an amplitude of 1.0.
pub const AMPLITUDE_UNIT: i64 = 1000;

/// A capture block is judged loud only when strictly more than this many of
/// its frames are active; it keeps a single noisy sample from triggering a
/// false detection.
pub const ACTIVITY_HYSTERESIS: u64 = 10;

/// `x` pushed into the interval `[lo, hi]`.
pub open spec fn clamped(x: int, lo: int, hi: int) -> int {
    if x < lo {
        lo
    } else if x > hi {
        hi
    } else {
        x
    }
}

/// Normalize a raw volume given in thousandths of the 0..=100 input scale
/// (so 50.0 arrives as 50_000) to amplitude milliunits: the input is clamped
/// to the scale and divided by 100, yielding a volume in `0..=AMPLITUDE_UNIT`.
pub fn normalize_volume(raw_milli_percent: i64) -> (v: u64)
    ensures
        v == clamped(raw_milli_percent as int, 0, 100_000) / 100,
        v <= AMPLITUDE_UNIT,
{
    let c: u64 = if raw_milli_percent < 0 {
        0
    } else if raw_milli_percent > 100_000 {
        100_000
    } else {
        raw_milli_percent as u64
    };
    c / 100
}

/// Clamp a raw sensitivity given in amplitude milliunits to the accepted
/// range `[0, 2 * AMPLITUDE_UNIT]` (an amplitude excursion of 0.0 to 2.0).
pub fn clamp_sensitivity(raw_millis: i64) -> (s: i64)
    ensures
        s == clamped(raw_millis as int, 0, 2 * AMPLITUDE_UNIT),
{
    if raw_millis < 0 {
        0
    } else if raw_millis > 2 * AMPLITUDE_UNIT {
        2 * AMPLITUDE_UNIT
    } else {
        raw_millis
    }
}

} // verus!
