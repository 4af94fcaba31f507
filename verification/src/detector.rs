//! The capture side: classification of one hardware-delivered block and the
//! state transition it drives. A block is folded to its first channel and
//! scanned with a running minimum and maximum; frames at which the running
//! peak-to-peak excursion exceeds the sensitivity are active. Strictly more
//! active frames than the hysteresis constant make the block loud (tone
//! heard: disarm and report); no active frame makes it silent (arm); anything
//! between is ambiguous and leaves the state alone.

use vstd::prelude::*;
use vstd::seq_lib::lemma_seq_skip_nothing;
use vstd::seq_lib::lemma_seq_skip_of_skip;

use crate::config::ACTIVITY_HYSTERESIS;
use crate::estimator::latency_us;
use crate::estimator::latency_us_clamped;
use crate::state::loud_step;
use crate::state::silent_step;
use crate::state::RoundTripState;

verus! {

/// The first-channel fold of an interleaved block: the first sample of every
/// frame of `channels` samples, a trailing partial frame contributing its
/// first sample like any other.
pub open spec fn first_channel(s: Seq<i32>, channels: int) -> Seq<i32>
    decreases s.len(),
{
    if s.len() == 0 || channels < 1 {
        Seq::empty()
    } else if s.len() <= channels {
        seq![s[0]]
    } else {
        seq![s[0]] + first_channel(s.skip(channels), channels)
    }
}

/// Least first-channel sample among the first `k` frames (`k >= 1`).
pub open spec fn min_prefix(m: Seq<i32>, k: int) -> int
    decreases k,
{
    if k <= 1 {
        m[0] as int
    } else if (m[k - 1] as int) < min_prefix(m, k - 1) {
        m[k - 1] as int
    } else {
        min_prefix(m, k - 1)
    }
}

/// Greatest first-channel sample among the first `k` frames (`k >= 1`).
pub open spec fn max_prefix(m: Seq<i32>, k: int) -> int
    decreases k,
{
    if k <= 1 {
        m[0] as int
    } else if (m[k - 1] as int) > max_prefix(m, k - 1) {
        m[k - 1] as int
    } else {
        max_prefix(m, k - 1)
    }
}

/// Running peak-to-peak excursion after `k` frames.
pub open spec fn excursion_prefix(m: Seq<i32>, k: int) -> int {
    max_prefix(m, k) - min_prefix(m, k)
}

/// Frame `k` (1-based) is active when the running excursion at it exceeds
/// the sensitivity.
pub open spec fn frame_active(m: Seq<i32>, sensitivity: int, k: int) -> bool {
    excursion_prefix(m, k) > sensitivity
}

/// Number of active frames among the first `k`.
pub open spec fn activity_count(m: Seq<i32>, sensitivity: int, k: int) -> int
    decreases k,
{
    if k <= 0 {
        0
    } else if frame_active(m, sensitivity, k) {
        activity_count(m, sensitivity, k - 1) + 1
    } else {
        activity_count(m, sensitivity, k - 1)
    }
}

/// Number of frames among the first `k` at which the activity count (taken
/// after the frame's own update) was still within the hysteresis: the frames
/// that elapsed before the block was confidently classified as loud, used
/// for the sub-block timing correction.
pub open spec fn pre_threshold_count(m: Seq<i32>, sensitivity: int, k: int) -> int
    decreases k,
{
    if k <= 0 {
        0
    } else if activity_count(m, sensitivity, k) <= ACTIVITY_HYSTERESIS as int {
        pre_threshold_count(m, sensitivity, k - 1) + 1
    } else {
        pre_threshold_count(m, sensitivity, k - 1)
    }
}

/// Peak-to-peak excursion of a whole block; 0 for an empty block.
pub open spec fn peak_excursion(m: Seq<i32>) -> int {
    if m.len() == 0 {
        0
    } else {
        excursion_prefix(m, m.len() as int)
    }
}

/// What one detector invocation learns from a capture block.
#[derive(PartialEq, Eq, Structural, Clone, Copy, Debug)]
pub struct BlockSummary {
    /// Frames at which the running peak-to-peak excursion exceeded the
    /// sensitivity.
    pub activity_count: u64,
    /// Frames that elapsed before the loud classification became confident.
    pub pre_threshold_count: u64,
    /// Peak-to-peak excursion over the whole block, amplitude milliunits.
    pub peak_millis: i64,
}

/// A summary agrees with the mathematical scan of a block's first channel.
pub open spec fn summary_matches(s: BlockSummary, m: Seq<i32>, sensitivity: int) -> bool {
    &&& s.activity_count == activity_count(m, sensitivity, m.len() as int)
    &&& s.pre_threshold_count == pre_threshold_count(m, sensitivity, m.len() as int)
    &&& s.peak_millis == peak_excursion(m)
}

/// A block is loud when strictly more frames than the hysteresis constant
/// were active.
pub open spec fn is_loud(activity_count: int) -> bool {
    activity_count > ACTIVITY_HYSTERESIS as int
}

/// A block is silent when no frame was active.
pub open spec fn is_silent(activity_count: int) -> bool {
    activity_count == 0
}

/// Fold an interleaved block to its first channel.
pub fn extract_first_channel(samples: &Vec<i32>, channels: usize) -> (mono: Vec<i32>)
    requires
        channels >= 1,
    ensures
        mono@ == first_channel(samples@, channels as int),
{
    let len = samples.len();
    let mut mono: Vec<i32> = Vec::new();
    let mut i: usize = 0;
    proof {
        lemma_seq_skip_nothing(samples@, 0);
        assert(mono@ + first_channel(samples@.skip(0), channels as int) =~= first_channel(
            samples@,
            channels as int,
        ));
    }
    while i < len
        invariant
            channels >= 1,
            len == samples@.len(),
            i <= len,
            first_channel(samples@, channels as int) == mono@ + first_channel(
                samples@.skip(i as int),
                channels as int,
            ),
        decreases len - i,
    {
        let ghost mono_before = mono@;
        let ghost rem = samples@.skip(i as int);
        mono.push(samples[i]);
        proof {
            assert(mono@ =~= mono_before + seq![samples@[i as int]]);
        }
        if len - i <= channels {
            proof {
                assert(first_channel(rem, channels as int) =~= seq![samples@[i as int]]);
                assert(samples@.skip(len as int).len() == 0);
                assert(first_channel(samples@.skip(len as int), channels as int)
                    =~= Seq::<i32>::empty());
                assert(mono_before + first_channel(rem, channels as int) =~= mono@
                    + first_channel(samples@.skip(len as int), channels as int));
            }
            i = len;
        } else {
            proof {
                lemma_seq_skip_of_skip(samples@, i as int, channels as int);
                assert(first_channel(rem, channels as int) == seq![samples@[i as int]]
                    + first_channel(samples@.skip(i + channels), channels as int));
                assert(mono_before + first_channel(rem, channels as int) =~= mono@
                    + first_channel(samples@.skip(i + channels), channels as int));
            }
            i = i + channels;
        }
    }
    proof {
        assert(first_channel(samples@.skip(len as int), channels as int) =~= Seq::<i32>::empty());
        assert(mono@ + Seq::<i32>::empty() =~= mono@);
    }
    mono
}

/// Scan one capture block: fold it to its first channel, track the running
/// minimum and maximum, and count active and pre-threshold frames. The
/// sensitivity is in amplitude milliunits.
pub fn classify_block(samples: &Vec<i32>, channels: usize, sensitivity: i64) -> (s: BlockSummary)
    requires
        channels >= 1,
    ensures
        summary_matches(s, first_channel(samples@, channels as int), sensitivity as int),
{
    let mono = extract_first_channel(samples, channels);
    let n = mono.len();
    let mut lo: i32 = 0;
    let mut hi: i32 = 0;
    let mut active: u64 = 0;
    let mut pre: u64 = 0;
    let mut i: usize = 0;
    while i < n
        invariant
            n == mono@.len(),
            i <= n,
            active == activity_count(mono@, sensitivity as int, i as int),
            pre == pre_threshold_count(mono@, sensitivity as int, i as int),
            active <= i,
            pre <= i,
            i >= 1 ==> lo as int == min_prefix(mono@, i as int),
            i >= 1 ==> hi as int == max_prefix(mono@, i as int),
        decreases n - i,
    {
        let x = mono[i];
        if i == 0 {
            lo = x;
            hi = x;
        } else {
            if x < lo {
                lo = x;
            }
            if x > hi {
                hi = x;
            }
        }
        let excursion: i64 = (hi as i64) - (lo as i64);
        if excursion > sensitivity {
            active = active + 1;
        }
        if active <= ACTIVITY_HYSTERESIS {
            pre = pre + 1;
        }
        i = i + 1;
    }
    let peak: i64 = if n == 0 {
        0
    } else {
        (hi as i64) - (lo as i64)
    };
    BlockSummary { activity_count: active, pre_threshold_count: pre, peak_millis: peak }
}

/// What the detector reports on a completed round trip.
#[derive(PartialEq, Eq, Structural, Clone, Copy, Debug)]
pub struct LatencyReport {
    /// Round-trip delay, microseconds.
    pub delay_us: u64,
    /// Peak-to-peak excursion of the detecting block, amplitude milliunits.
    pub peak_millis: i64,
}

/// The state transition one detector invocation performs, by classification
/// of the block's activity count.
pub open spec fn detector_transition(s: RoundTripState, activity: int) -> RoundTripState {
    if is_loud(activity) {
        loud_step(s)
    } else if is_silent(activity) {
        silent_step(s)
    } else {
        s
    }
}

/// A report is emitted exactly when a loud block finds the state armed.
pub open spec fn emits_report(s: RoundTripState, activity: int) -> bool {
    is_loud(activity) && s.armed
}

/// Whether a summarized block is loud: strictly more active frames than the
/// hysteresis constant.
pub fn block_is_loud(s: &BlockSummary) -> (r: bool)
    ensures
        r == is_loud(s.activity_count as int),
{
    s.activity_count > ACTIVITY_HYSTERESIS
}

/// Whether a summarized block is silent: no active frame at all.
pub fn block_is_silent(s: &BlockSummary) -> (r: bool)
    ensures
        r == is_silent(s.activity_count as int),
{
    s.activity_count == 0
}

/// One detector invocation: classify the summarized block, drive the shared
/// state, and report the round-trip delay and peak when a loud block disarms
/// an armed state. A loud block over a disarmed state is stray and produces
/// nothing; a silent block arms, resetting the stamp only on a fresh arming;
/// an ambiguous block changes nothing.
pub fn detector_step(
    state: &mut RoundTripState,
    summary: BlockSummary,
    block_start_ns: u64,
    sample_rate: u32,
) -> (report: Option<LatencyReport>)
    requires
        sample_rate > 0,
    ensures
        *final(state) == detector_transition(*old(state), summary.activity_count as int),
        report.is_some() == emits_report(*old(state), summary.activity_count as int),
        report.is_some() ==> report == Some((LatencyReport {
            delay_us: latency_us_clamped(
                block_start_ns as int,
                old(state).emission_start_ns as int,
                summary.pre_threshold_count as int,
                sample_rate as int,
            ) as u64,
            peak_millis: summary.peak_millis,
        })),
{
    if block_is_loud(&summary) {
        let disarmed = state.disarm_and_read_emission_start();
        if disarmed.0 {
            let delay_us = latency_us(
                block_start_ns,
                disarmed.1,
                summary.pre_threshold_count,
                sample_rate,
            );
            Some(LatencyReport { delay_us, peak_millis: summary.peak_millis })
        } else {
            None
        }
    } else if block_is_silent(&summary) {
        let newly_armed = state.try_arm();
        if newly_armed {
            state.reset_emission_start();
        }
        None
    } else {
        None
    }
}

/// Law: the classification boundaries are exact. Exactly the hysteresis
/// count of active frames is still not loud (the comparison is strict) while
/// one more is; zero active frames are silent while a single one is already
/// ambiguous.
pub proof fn lemma_classification_boundaries()
    ensures
        !is_loud(ACTIVITY_HYSTERESIS as int),
        is_loud(ACTIVITY_HYSTERESIS as int + 1),
        is_silent(0),
        !is_silent(1),
{
}

/// Law: an ambiguous block — some active frames, but no more than the
/// hysteresis count — performs no state transition at all.
pub proof fn lemma_ambiguous_block_no_transition(s: RoundTripState, activity: int)
    requires
        !is_loud(activity),
        !is_silent(activity),
    ensures
        detector_transition(s, activity) == s,
{
}

} // verus!
