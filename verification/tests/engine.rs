use audioping::config::clamp_sensitivity;
use audioping::config::normalize_volume;
use audioping::detector::classify_block;
use audioping::detector::detector_step;
use audioping::detector::extract_first_channel;
use audioping::detector::BlockSummary;
use audioping::estimator::latency_us;
use audioping::state::RoundTripState;
use audioping::transmitter::fill_silence;
use audioping::transmitter::fill_tone;
use audioping::transmitter::scale_sample;
use audioping::transmitter::tone_phases;
use audioping::transmitter::transmitter_step;

/// A block whose first `quiet` frames are zero and whose last `active` frames
/// are at `level` milliunits (the running excursion rises only at the tail).
fn tail_block(quiet: usize, active: usize, level: i32) -> Vec<i32> {
    let mut block = vec![0i32; quiet];
    block.extend(std::iter::repeat(level).take(active));
    block
}

#[test]
fn fresh_state_is_disarmed_and_unset() {
    let st = RoundTripState::new();
    assert!(!st.armed);
    assert_eq!(st.emission_start_ns, 0);
}

#[test]
fn try_arm_transitions_once() {
    let mut st = RoundTripState::new();
    assert!(st.try_arm());
    assert!(st.armed);
    assert!(!st.try_arm());
    assert!(st.armed);
}

#[test]
fn stamp_lands_only_over_the_sentinel() {
    let mut st = RoundTripState::new();
    st.try_arm();
    assert!(st.stamp_emission_start_once(111));
    assert_eq!(st.emission_start_ns, 111);
    assert!(!st.stamp_emission_start_once(222));
    assert_eq!(st.emission_start_ns, 111);
}

#[test]
fn disarm_reports_armed_and_stamp() {
    let mut st = RoundTripState::new();
    st.try_arm();
    st.stamp_emission_start_once(777);
    let (was_armed, stamp) = st.disarm_and_read_emission_start();
    assert!(was_armed);
    assert_eq!(stamp, 777);
    assert!(!st.armed);
    let (was_armed_again, stamp_again) = st.disarm_and_read_emission_start();
    assert!(!was_armed_again);
    assert_eq!(stamp_again, 777);
}

#[test]
fn rearming_resets_a_stale_stamp() {
    let mut st = RoundTripState::new();
    st.try_arm();
    st.stamp_emission_start_once(999);
    st.disarm_and_read_emission_start();
    assert_eq!(st.emission_start_ns, 999);
    // The next cycle starts with a silent block: a fresh arming must restore
    // the sentinel so the stale stamp cannot serve the new measurement.
    let silent = classify_block(&vec![0i32; 512], 1, 1000);
    let report = detector_step(&mut st, silent, 5_000, 48000);
    assert!(report.is_none());
    assert!(st.armed);
    assert_eq!(st.emission_start_ns, 0);
}

#[test]
fn volume_normalization_scales_and_clamps() {
    assert_eq!(normalize_volume(50_000), 500);
    assert_eq!(normalize_volume(0), 0);
    assert_eq!(normalize_volume(100_000), 1000);
    assert_eq!(normalize_volume(150_000), 1000);
    assert_eq!(normalize_volume(-5_000), 0);
    assert_eq!(normalize_volume(12_345), 123);
}

#[test]
fn sensitivity_clamps_to_accepted_range() {
    assert_eq!(clamp_sensitivity(1_000), 1_000);
    assert_eq!(clamp_sensitivity(2_500), 2_000);
    assert_eq!(clamp_sensitivity(-3), 0);
    assert_eq!(clamp_sensitivity(0), 0);
}

#[test]
fn latency_exact_values() {
    // Coarse term: 1_000_000 ns -> 1000 us; correction: 11 frames at 48 kHz
    // -> 229 us (truncated).
    assert_eq!(latency_us(2_000_000, 1_000_000, 11, 48000), 1229);
    assert_eq!(latency_us(5_000, 5_000, 0, 48000), 0);
    assert_eq!(latency_us(1_000_000, 0, 0, 48000), 1000);
    // A stamp that postdates the block start contributes no coarse delay.
    assert_eq!(latency_us(100, 200, 0, 48000), 0);
    // The reported delay saturates instead of wrapping.
    assert_eq!(latency_us(u64::MAX, 0, u64::MAX, 1), u64::MAX);
}

#[test]
fn first_channel_folds_interleaved_frames() {
    assert_eq!(extract_first_channel(&vec![1, 2, 3, 4, 5, 6], 2), vec![1, 3, 5]);
    // A trailing partial frame still contributes its first sample.
    assert_eq!(extract_first_channel(&vec![1, 2, 3, 4, 5], 2), vec![1, 3, 5]);
    assert_eq!(extract_first_channel(&vec![7, 8, 9], 1), vec![7, 8, 9]);
    assert_eq!(extract_first_channel(&vec![], 4), Vec::<i32>::new());
}

#[test]
fn quiet_then_tone_round_trip() {
    let mut st = RoundTripState::new();

    // A 512-frame block of all-zero samples at 48 kHz: no activity, arm.
    let quiet = classify_block(&vec![0i32; 512], 1, 1000);
    assert_eq!(quiet.activity_count, 0);
    let report = detector_step(&mut st, quiet, 0, 48000);
    assert!(report.is_none());
    assert!(st.armed);

    // The playback side stamps the emission start.
    assert!(st.stamp_emission_start_once(1_000_000));

    // A 512-frame block alternating +-1.5 with sensitivity 1.0: loud from
    // the second frame on, peak-to-peak 3.0.
    let mut tone_block = Vec::new();
    for i in 0..512 {
        tone_block.push(if i % 2 == 0 { 1500i32 } else { -1500i32 });
    }
    let loud = classify_block(&tone_block, 1, 1000);
    assert!(loud.activity_count > 10);
    assert_eq!(loud.activity_count, 511);
    assert_eq!(loud.pre_threshold_count, 11);
    assert_eq!(loud.peak_millis, 3000);

    let report = detector_step(&mut st, loud, 2_000_000, 48000);
    let report = report.expect("an armed, stamped state must report on a loud block");
    assert_eq!(report.delay_us, 1229);
    assert_eq!(report.peak_millis, 3000);
    assert!(!st.armed);
}

#[test]
fn ambiguous_block_changes_nothing() {
    // Exactly 5 frames exceed the threshold, 507 do not: no transition.
    let block = tail_block(507, 5, 1500);
    let summary = classify_block(&block, 1, 1000);
    assert_eq!(summary.activity_count, 5);

    let mut disarmed = RoundTripState::new();
    assert!(detector_step(&mut disarmed, summary, 100, 48000).is_none());
    assert!(!disarmed.armed);
    assert_eq!(disarmed.emission_start_ns, 0);

    let mut armed = RoundTripState::new();
    armed.try_arm();
    armed.stamp_emission_start_once(42);
    assert!(detector_step(&mut armed, summary, 100, 48000).is_none());
    assert!(armed.armed);
    assert_eq!(armed.emission_start_ns, 42);
}

#[test]
fn hysteresis_boundary_is_strict() {
    // Exactly 10 active frames: not loud, an armed state stays armed.
    let at_threshold = classify_block(&tail_block(502, 10, 1500), 1, 1000);
    assert_eq!(at_threshold.activity_count, 10);
    let mut st = RoundTripState::new();
    st.try_arm();
    st.stamp_emission_start_once(1_000);
    assert!(detector_step(&mut st, at_threshold, 5_000, 48000).is_none());
    assert!(st.armed);

    // Eleven active frames: loud, disarms and reports.
    let over_threshold = classify_block(&tail_block(501, 11, 1500), 1, 1000);
    assert_eq!(over_threshold.activity_count, 11);
    let report = detector_step(&mut st, over_threshold, 5_000, 48000);
    assert!(report.is_some());
    assert!(!st.armed);
}

#[test]
fn single_active_frame_is_already_ambiguous() {
    let one_active = classify_block(&tail_block(511, 1, 1500), 1, 1000);
    assert_eq!(one_active.activity_count, 1);
    let mut st = RoundTripState::new();
    assert!(detector_step(&mut st, one_active, 100, 48000).is_none());
    assert!(!st.armed);
}

#[test]
fn empty_block_is_silent_and_arms() {
    let empty = classify_block(&Vec::new(), 2, 1000);
    assert_eq!(empty.activity_count, 0);
    assert_eq!(empty.pre_threshold_count, 0);
    assert_eq!(empty.peak_millis, 0);
    let mut st = RoundTripState::new();
    assert!(detector_step(&mut st, empty, 100, 48000).is_none());
    assert!(st.armed);
}

#[test]
fn stray_loud_block_while_disarmed() {
    let mut st = RoundTripState::new();
    let loud = BlockSummary { activity_count: 50, pre_threshold_count: 11, peak_millis: 2500 };
    let report = detector_step(&mut st, loud, 9_000, 48000);
    assert!(report.is_none());
    assert!(!st.armed);
    assert_eq!(st.emission_start_ns, 0);
}

#[test]
fn scale_sample_keeps_sign_and_truncates_toward_zero() {
    assert_eq!(scale_sample(1000, 500), 500);
    assert_eq!(scale_sample(999, 500), 499);
    assert_eq!(scale_sample(-999, 500), -499);
    assert_eq!(scale_sample(3, 1), 0);
    assert_eq!(scale_sample(-1000, 1000), -1000);
    assert_eq!(scale_sample(708, 0), 0);
}

#[test]
fn volume_bounds_transmitted_peak() {
    // Volume input 50 on the 0..=100 scale normalizes to 0.5; with a tone
    // within the unit amplitude, no output sample magnitude may exceed 0.5.
    let volume = normalize_volume(50_000);
    assert_eq!(volume, 500);
    let tone = vec![0, 707, 1000, 707, 0, -707, -1000, -707];
    let mut out = vec![0i32; 16];
    let mut st = RoundTripState::new();
    st.try_arm();
    transmitter_step(&mut st, &mut out, &tone, 2, volume, 4_000);
    for sample in &out {
        assert!(sample.unsigned_abs() <= 500);
    }
    // Mono fold-up: both channels of a frame carry the frame's value.
    assert_eq!(out[4], scale_sample(1000, 500));
    assert_eq!(out[5], scale_sample(1000, 500));
    assert_eq!(out[4], 500);
    assert_eq!(out[12], -500);
    assert_eq!(out[13], -500);
    // The armed transmitter stamped the emission start.
    assert_eq!(st.emission_start_ns, 4_000);
}

#[test]
fn disarmed_transmitter_emits_silence() {
    let tone = vec![1000i32; 8];
    let mut out = vec![55i32; 16];
    let mut st = RoundTripState::new();
    transmitter_step(&mut st, &mut out, &tone, 2, 1000, 4_000);
    assert!(out.iter().all(|s| *s == 0));
    assert!(!st.armed);
    assert_eq!(st.emission_start_ns, 0);
}

#[test]
fn transmitter_stamps_once_per_cycle() {
    let tone = vec![1000i32; 4];
    let mut out = vec![0i32; 4];
    let mut st = RoundTripState::new();
    st.try_arm();
    transmitter_step(&mut st, &mut out, &tone, 1, 1000, 111);
    assert_eq!(st.emission_start_ns, 111);
    transmitter_step(&mut st, &mut out, &tone, 1, 1000, 222);
    assert_eq!(st.emission_start_ns, 111);
    // After a detection and a fresh arming the next cycle stamps anew.
    st.disarm_and_read_emission_start();
    st.try_arm();
    st.reset_emission_start();
    transmitter_step(&mut st, &mut out, &tone, 1, 1000, 333);
    assert_eq!(st.emission_start_ns, 333);
}

#[test]
fn fill_tone_handles_partial_trailing_frame() {
    let tone = vec![100, 200, 300];
    let mut out = vec![0i32; 5];
    fill_tone(&mut out, &tone, 2, 1000);
    assert_eq!(out, vec![100, 100, 200, 200, 300]);
}

#[test]
fn tone_phases_restart_and_wrap() {
    // The sample clock starts anew each invocation and wraps at the rate.
    assert_eq!(tone_phases(5, 3), vec![1, 2, 0, 1, 2]);
    assert_eq!(tone_phases(3, 48000), vec![1, 2, 3]);
    assert_eq!(tone_phases(0, 48000), Vec::<u32>::new());
    assert_eq!(tone_phases(4, 1), vec![0, 0, 0, 0]);
}

#[test]
fn fill_silence_zeroes_every_sample() {
    let mut out = vec![9i32; 7];
    fill_silence(&mut out);
    assert_eq!(out, vec![0; 7]);
}
