//! Conversion of a detected round trip into a delay figure. The coarse term
//! is the nanoseconds between the recorded emission start and the start of
//! the detecting block; the sub-block correction converts the frames that
//! elapsed before the loud classification became confident into time at the
//! sample rate. Both terms are in microseconds, end to end.

use vstd::prelude::*;

verus! {

/// Coarse delay term in microseconds: the nanoseconds elapsed between the
/// recorded emission start and the detecting block's start, divided by 1000.
/// A stamp that postdates the block's start (possible when the two
/// independently clocked callbacks race) contributes nothing.
pub open spec fn coarse_delay_us(block_start_ns: int, emission_start_ns: int) -> int {
    if block_start_ns >= emission_start_ns {
        (block_start_ns - emission_start_ns) / 1000
    } else {
        0
    }
}

/// Sub-block correction in microseconds: `pre_threshold_count` frames
/// converted to time at `sample_rate` frames per second.
pub open spec fn sub_block_correction_us(pre_threshold_count: int, sample_rate: int) -> int {
    pre_threshold_count * 1_000_000 / sample_rate
}

/// The ideal (unbounded) round-trip delay in microseconds.
pub open spec fn latency_us_ideal(
    block_start_ns: int,
    emission_start_ns: int,
    pre_threshold_count: int,
    sample_rate: int,
) -> int {
    coarse_delay_us(block_start_ns, emission_start_ns) + sub_block_correction_us(
        pre_threshold_count,
        sample_rate,
    )
}

/// The delay as reported: the ideal value, saturated at `u64::MAX`.
pub open spec fn latency_us_clamped(
    block_start_ns: int,
    emission_start_ns: int,
    pre_threshold_count: int,
    sample_rate: int,
) -> int {
    let ideal = latency_us_ideal(block_start_ns, emission_start_ns, pre_threshold_count,
        sample_rate);
    if ideal > u64::MAX {
        u64::MAX as int
    } else {
        ideal
    }
}

/// Round-trip delay in microseconds for a detection at `block_start_ns` of a
/// tone stamped at `emission_start_ns`, corrected by the frames that elapsed
/// in the detecting block before the classification became confident.
pub fn latency_us(
    block_start_ns: u64,
    emission_start_ns: u64,
    pre_threshold_count: u64,
    sample_rate: u32,
) -> (delay_us: u64)
    requires
        sample_rate > 0,
    ensures
        delay_us == latency_us_clamped(
            block_start_ns as int,
            emission_start_ns as int,
            pre_threshold_count as int,
            sample_rate as int,
        ),
{
    let coarse: u128 = if block_start_ns >= emission_start_ns {
        ((block_start_ns - emission_start_ns) as u128) / 1000
    } else {
        0
    };
    let correction: u128 = (pre_threshold_count as u128) * 1_000_000 / (sample_rate as u128);
    let total: u128 = coarse + correction;
    if total > u64::MAX as u128 {
        u64::MAX
    } else {
        total as u64
    }
}

} // verus!
