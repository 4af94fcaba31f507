//! The playback side: when armed, fill the hardware-requested block with the
//! probe tone scaled by the session volume, replicated identically across all
//! channels of each frame (mono fold-up), and stamp the emission start once
//! per arming cycle; when disarmed, fill silence. The tone's waveform arrives
//! as one fixed-point sample per frame; synthesizing it (a sine at the probe
//! frequency) is the caller's concern, scaling and replication are specified
//! here.

use vstd::prelude::*;
use vstd::arithmetic::div_mod::lemma_div_is_ordered;
use vstd::arithmetic::div_mod::lemma_fundamental_div_mod;
use vstd::arithmetic::div_mod::lemma_div_multiples_vanish;
use vstd::arithmetic::div_mod::lemma_div_pos_is_pos;
use vstd::arithmetic::div_mod::lemma_fundamental_div_mod_converse;
use vstd::arithmetic::mul::lemma_mul_inequality;
use vstd::arithmetic::mul::lemma_mul_nonnegative;

use crate::config::AMPLITUDE_UNIT;
use crate::state::stamp_step;
use crate::state::RoundTripState;

verus! {

/// A tone sample scaled by the volume: the magnitude scales by
/// `volume / AMPLITUDE_UNIT`, rounding toward zero, and the sign is kept.
pub open spec fn scaled_sample(tone: int, volume: int) -> int {
    if tone >= 0 {
        tone * volume / (AMPLITUDE_UNIT as int)
    } else {
        -((-tone) * volume / (AMPLITUDE_UNIT as int))
    }
}

/// Scaling by a volume within the unit never grows a sample's magnitude and
/// never flips its sign.
pub proof fn lemma_scaled_sample_within(tone: int, volume: int)
    requires
        0 <= volume <= AMPLITUDE_UNIT as int,
    ensures
        tone >= 0 ==> 0 <= scaled_sample(tone, volume) <= tone,
        tone < 0 ==> tone <= scaled_sample(tone, volume) <= 0,
{
    let unit = AMPLITUDE_UNIT as int;
    let mag = if tone >= 0 { tone } else { -tone };
    lemma_mul_nonnegative(mag, volume);
    lemma_div_pos_is_pos(mag * volume, unit);
    lemma_mul_inequality(volume, unit, mag);
    assert(mag * volume == volume * mag) by (nonlinear_arith);
    assert(mag * unit == unit * mag) by (nonlinear_arith);
    lemma_div_is_ordered(mag * volume, mag * unit, unit);
    lemma_div_multiples_vanish(mag, unit);
}

/// Law: the volume bounds the output. A tone sample within the unit
/// amplitude, scaled by a volume of at most the unit, has magnitude at most
/// the volume — the transmitter can never emit louder than the volume knob.
pub proof fn lemma_volume_bounds_output(tone: int, volume: int)
    requires
        0 <= volume <= AMPLITUDE_UNIT as int,
        -(AMPLITUDE_UNIT as int) <= tone <= AMPLITUDE_UNIT as int,
    ensures
        -volume <= scaled_sample(tone, volume) <= volume,
{
    let unit = AMPLITUDE_UNIT as int;
    let mag = if tone >= 0 { tone } else { -tone };
    lemma_mul_nonnegative(mag, volume);
    lemma_div_pos_is_pos(mag * volume, unit);
    lemma_mul_inequality(mag, unit, volume);
    assert(mag * volume == volume * mag) by (nonlinear_arith);
    lemma_div_is_ordered(mag * volume, unit * volume, unit);
    lemma_div_multiples_vanish(volume, unit);
}

/// Law: a transmitted block never exceeds the volume. For a block filled the
/// way `fill_tone` promises, from a tone whose samples are within the unit
/// amplitude, every output sample's magnitude is at most the volume.
pub proof fn lemma_block_peak_bounded(out: Seq<i32>, tone: Seq<i32>, channels: int, volume: int)
    requires
        channels >= 1,
        0 <= volume <= AMPLITUDE_UNIT as int,
        forall|f: int|
            0 <= f < tone.len() ==> -(AMPLITUDE_UNIT as int) <= #[trigger] tone[f]
                <= AMPLITUDE_UNIT as int,
        out.len() <= tone.len() * channels,
        forall|j: int|
            0 <= j < out.len() ==> out[j] as int == scaled_sample(tone[j / channels] as int,
            volume),
    ensures
        forall|j: int| 0 <= j < out.len() ==> -volume <= #[trigger] out[j] as int <= volume,
{
    assert forall|j: int| 0 <= j < out.len() implies -volume <= #[trigger] out[j] as int
        <= volume by {
        lemma_div_pos_is_pos(j, channels);
        assert((tone.len() - 1) * channels + (channels - 1) == tone.len() * channels - 1)
            by (nonlinear_arith);
        lemma_fundamental_div_mod_converse(tone.len() * channels - 1, channels,
            tone.len() as int - 1, channels - 1);
        lemma_div_is_ordered(j, tone.len() * channels - 1, channels);
        lemma_volume_bounds_output(tone[j / channels] as int, volume);
    }
}

/// One tone sample scaled by the volume, in fixed point.
pub fn scale_sample(tone: i32, volume: u64) -> (s: i32)
    requires
        volume as int <= AMPLITUDE_UNIT as int,
    ensures
        s as int == scaled_sample(tone as int, volume as int),
{
    proof {
        lemma_scaled_sample_within(tone as int, volume as int);
    }
    if tone >= 0 {
        let mag: u64 = tone as u64;
        let scaled: u64 = mag * volume / (AMPLITUDE_UNIT as u64);
        scaled as i32
    } else {
        let mag: u64 = (-(tone as i64)) as u64;
        let scaled: u64 = mag * volume / (AMPLITUDE_UNIT as u64);
        (-(scaled as i64)) as i32
    }
}

/// The oscillator's phase for each frame of one playback block: the sample
/// clock starts at zero on every invocation and steps through 1, 2, ... modulo
/// the sample rate, so the waveform restarts at each block boundary (the
/// detector's amplitude-excursion test is insensitive to the discontinuity).
pub fn tone_phases(frames: usize, sample_rate: u32) -> (phases: Vec<u32>)
    requires
        sample_rate > 0,
    ensures
        phases@.len() == frames,
        forall|k: int|
            0 <= k < frames ==> #[trigger] phases@[k] as int == (k + 1) % (sample_rate as int),
{
    let mut phases: Vec<u32> = Vec::new();
    let mut clock: u32 = 0;
    let mut i: usize = 0;
    while i < frames
        invariant
            sample_rate > 0,
            i <= frames,
            phases@.len() == i,
            clock < sample_rate,
            clock as int == (i as int) % (sample_rate as int),
            forall|k: int|
                0 <= k < i ==> #[trigger] phases@[k] as int == (k + 1) % (sample_rate as int),
        decreases frames - i,
    {
        proof {
            let rate = sample_rate as int;
            let quot = (i as int) / rate;
            lemma_fundamental_div_mod(i as int, rate);
            if clock + 1 == sample_rate {
                assert(rate * quot + rate == (quot + 1) * rate) by (nonlinear_arith);
                lemma_fundamental_div_mod_converse(i as int + 1, rate, quot + 1, 0);
            } else {
                lemma_fundamental_div_mod_converse(i as int + 1, rate, quot, clock as int + 1);
            }
        }
        clock = if clock + 1 == sample_rate {
            0
        } else {
            clock + 1
        };
        phases.push(clock);
        i = i + 1;
    }
    phases
}

/// Fill an interleaved playback block with the tone scaled by the volume:
/// sample `j` belongs to frame `j / channels`, and every channel of a frame
/// carries the frame's one tone value.
pub fn fill_tone(out: &mut Vec<i32>, tone: &Vec<i32>, channels: usize, volume: u64)
    requires
        channels >= 1,
        volume as int <= AMPLITUDE_UNIT as int,
        old(out)@.len() <= tone@.len() * channels,
    ensures
        final(out)@.len() == old(out)@.len(),
        forall|j: int|
            0 <= j < final(out)@.len() ==> final(out)@[j] as int == scaled_sample(
                tone@[j / (channels as int)] as int,
                volume as int,
            ),
{
    let n = out.len();
    let mut j: usize = 0;
    let mut frame: usize = 0;
    let mut chan: usize = 0;
    while j < n
        invariant
            channels >= 1,
            volume as int <= AMPLITUDE_UNIT as int,
            n == out@.len(),
            out@.len() == old(out)@.len(),
            n <= tone@.len() * channels,
            j <= n,
            chan < channels,
            j == frame * channels + chan,
            forall|k: int|
                0 <= k < j ==> out@[k] as int == scaled_sample(
                    tone@[k / (channels as int)] as int,
                    volume as int,
                ),
        decreases n - j,
    {
        proof {
            assert(frame < tone@.len()) by (nonlinear_arith)
                requires
                    j == frame * channels + chan,
                    j < n,
                    n <= tone@.len() * channels,
                    chan >= 0,
                    channels >= 1,
            ;
            lemma_fundamental_div_mod_converse(j as int, channels as int, frame as int,
                chan as int);
        }
        let value = scale_sample(tone[frame], volume);
        out.set(j, value);
        j = j + 1;
        chan = chan + 1;
        if chan == channels {
            proof {
                assert((frame + 1) * channels == frame * channels + channels) by (nonlinear_arith);
            }
            chan = 0;
            frame = frame + 1;
        }
    }
}

/// Fill a playback block with silence.
pub fn fill_silence(out: &mut Vec<i32>)
    ensures
        final(out)@.len() == old(out)@.len(),
        forall|j: int| 0 <= j < final(out)@.len() ==> final(out)@[j] == 0,
{
    let n = out.len();
    let mut j: usize = 0;
    while j < n
        invariant
            n == out@.len(),
            out@.len() == old(out)@.len(),
            j <= n,
            forall|k: int| 0 <= k < j ==> out@[k] == 0,
        decreases n - j,
    {
        out.set(j, 0);
        j = j + 1;
    }
}

/// One transmitter invocation. Armed: fill the block with the scaled tone and
/// attempt the once-per-cycle emission stamp at `now_ns` (it lands only over
/// the sentinel). Disarmed: fill silence and leave the state untouched.
pub fn transmitter_step(
    state: &mut RoundTripState,
    out: &mut Vec<i32>,
    tone: &Vec<i32>,
    channels: usize,
    volume: u64,
    now_ns: u64,
)
    requires
        channels >= 1,
        volume as int <= AMPLITUDE_UNIT as int,
        old(out)@.len() <= tone@.len() * channels,
    ensures
        final(out)@.len() == old(out)@.len(),
        *final(state) == if old(state).armed {
            stamp_step(*old(state), now_ns)
        } else {
            *old(state)
        },
        old(state).armed ==> forall|j: int|
            0 <= j < final(out)@.len() ==> final(out)@[j] as int == scaled_sample(
                tone@[j / (channels as int)] as int,
                volume as int,
            ),
        !old(state).armed ==> forall|j: int| 0 <= j < final(out)@.len() ==> final(out)@[j] == 0,
{
    if state.armed {
        fill_tone(out, tone, channels, volume);
        state.stamp_emission_start_once(now_ns);
    } else {
        fill_silence(out);
    }
}

} // verus!
