//! The bar over which the output loops.
//!
//! Every beat of a pattern takes up the same number of samples: its tone, where it has
//! one, and then silence.

use crate::double::Double;
use crate::pattern::{BeatPattern, BeatPatternType};
use crate::signal::{AudioSignal, BarTone};
use vstd::arithmetic::div_mod::*;
use vstd::arithmetic::mul::*;
use vstd::layout::size_of;
use vstd::prelude::*;

verus! {

/// The note value that the tempo counts: a beat value of four plays a beat per tempo beat.
pub const BASE_BEAT_VALUE: u16 = 4;

/// The quotient rounded to the nearest whole number, halves upwards.
pub open spec fn rounded_quotient(dividend: nat, divisor: nat) -> nat {
    (dividend + divisor / 2) / divisor
}

/// How many samples a beat takes up.
///
/// A minute holds `bpm * beat_value / BASE_BEAT_VALUE` beats. A tempo of no beats at all
/// makes a beat last for ever, that is as long as an `isize` can count, unless no samples
/// pass in the meantime.
pub open spec fn beat_samples(bpm: nat, beat_value: nat, sample_rate: nat) -> nat {
    let minute = 60 * sample_rate * BASE_BEAT_VALUE as nat;
    let beats = bpm * beat_value;
    let samples = if beats > 0 {
        rounded_quotient(minute, beats)
    } else if sample_rate > 0 {
        isize::MAX as nat
    } else {
        0
    };
    if samples > isize::MAX {
        isize::MAX as nat
    } else {
        samples
    }
}

/// How many samples a beat takes up.
///
/// The count is the one that double-precision arithmetic gives: a quotient of these whole
/// numbers that is no half stays further away from the nearest half than a double can err.
pub fn samples_per_beat(bpm: u16, beat_value: u16, sample_rate: u32) -> (res: usize)
    ensures
        res == beat_samples(bpm as nat, beat_value as nat, sample_rate as nat),
        res <= isize::MAX,
{
    assert(60 * sample_rate * BASE_BEAT_VALUE == 240 * sample_rate);
    let minute: u64 = 60 * sample_rate as u64 * BASE_BEAT_VALUE as u64;
    assert(bpm * beat_value <= 0xffff * 0xffff) by (nonlinear_arith)
        requires
            bpm <= 0xffff,
            beat_value <= 0xffff,
    ;
    let beats: u64 = bpm as u64 * beat_value as u64;
    if beats == 0 {
        if sample_rate > 0 {
            isize::MAX as usize
        } else {
            0
        }
    } else {
        let samples: u64 = (minute + beats / 2) / beats;
        if samples > isize::MAX as u64 {
            isize::MAX as usize
        } else {
            samples as usize
        }
    }
}

/// The sample at `offset` within a beat.
pub open spec fn beat_sample<T>(
    kind: BeatPatternType,
    offset: int,
    beat: Seq<T>,
    ac_beat: Seq<T>,
    silence: T,
) -> T {
    match kind {
        BeatPatternType::Accent => if offset < ac_beat.len() {
            ac_beat[offset]
        } else {
            silence
        },
        BeatPatternType::Beat => if offset < beat.len() {
            beat[offset]
        } else {
            silence
        },
        BeatPatternType::Pause => silence,
    }
}

/// The samples of a bar: those of each beat of the pattern in turn.
pub open spec fn bar<T>(
    pattern: Seq<BeatPatternType>,
    samples_per_beat: nat,
    beat: Seq<T>,
    ac_beat: Seq<T>,
    silence: T,
) -> Seq<T> {
    Seq::new(
        pattern.len() * samples_per_beat,
        |i: int|
            beat_sample(
                pattern[i / samples_per_beat as int],
                i % samples_per_beat as int,
                beat,
                ac_beat,
                silence,
            ),
    )
}

/// Whether a signal is the bar of a pattern, to be played from its start.
pub open spec fn is_bar<T>(
    buffer: AudioSignal<T>,
    pattern: Seq<BeatPatternType>,
    samples_per_beat: nat,
    sample_rate: u32,
    beat: Seq<T>,
    ac_beat: Seq<T>,
    silence: T,
) -> bool {
    &&& buffer.signal@ == bar(pattern, samples_per_beat, beat, ac_beat, silence)
    &&& buffer.index == 0
    &&& buffer.tone.frequency.bits == 0
    &&& buffer.tone.sample_rate == sample_rate
    &&& buffer.tone.samples == pattern.len() * samples_per_beat
    &&& buffer.tone.overtones == 0
    &&& buffer.tone.channels == 1
}

/// Whether a vector can hold that many samples.
pub open spec fn bar_fits<T>(samples: nat) -> bool {
    samples <= usize::MAX && samples * size_of::<T>() <= isize::MAX
}

/// Whether a vector can hold the bar of so many beats of a length.
pub fn fits_vector<T>(beats: usize, samples_per_beat: usize) -> (res: bool)
    ensures
        res == bar_fits::<T>(beats as nat * samples_per_beat as nat),
{
    let samples: usize = match beats.checked_mul(samples_per_beat) {
        Some(samples) => samples,
        None => {
            return false;
        },
    };
    match samples.checked_mul(core::mem::size_of::<T>()) {
        Some(bytes) => bytes <= isize::MAX as usize,
        None => false,
    }
}

/// What is said of a normal beat whose tone outlasts it.
pub const BEAT_TOO_LONG: &'static str = "Beat to long to play at current bpm";

/// What is said of an accentuated beat whose tone outlasts it.
pub const AC_BEAT_TOO_LONG: &'static str = "Accentuated beat to long to play at current bpm";

/// Appends the samples of one beat: its tone, and silence for the rest.
fn append_beat<T: Copy>(out: &mut Vec<T>, tone: &[T], samples_per_beat: usize, silence: T)
    requires
        tone@.len() <= samples_per_beat,
    ensures
        final(out)@ == old(out)@ + Seq::new(
            samples_per_beat as nat,
            |j: int|
                if j < tone@.len() {
                    tone@[j]
                } else {
                    silence
                },
        ),
{
    let ghost cell = |j: int|
        if j < tone@.len() {
            tone@[j]
        } else {
            silence
        };
    for j in 0..tone.len()
        invariant
            cell == (|j: int|
                if j < tone@.len() {
                    tone@[j]
                } else {
                    silence
                }),
            out@ == old(out)@ + Seq::new(j as nat, cell),
    {
        out.push(tone[j]);
    }
    for j in tone.len()..samples_per_beat
        invariant
            tone@.len() <= j <= samples_per_beat,
            cell == (|j: int|
                if j < tone@.len() {
                    tone@[j]
                } else {
                    silence
                }),
            out@ == old(out)@ + Seq::new(j as nat, cell),
    {
        out.push(silence);
    }
}

/// Builds the bar of a pattern from the tones of its beats.
///
/// A tone that outlasts its beat is refused, whether the pattern uses it or not.
pub fn assemble_bar<T: Copy>(
    pattern: &BeatPattern,
    samples_per_beat: usize,
    sample_rate: u32,
    beat: &[T],
    ac_beat: &[T],
    silence: T,
) -> (res: Result<AudioSignal<T>, &'static str>)
    requires
        beat@.len() <= samples_per_beat && ac_beat@.len() <= samples_per_beat ==> bar_fits::<T>(
            pattern@.len() * samples_per_beat as nat,
        ),
    ensures
        res is Ok <==> beat@.len() <= samples_per_beat && ac_beat@.len() <= samples_per_beat,
        match res {
            Ok(buffer) => is_bar(
                buffer,
                pattern@,
                samples_per_beat as nat,
                sample_rate,
                beat@,
                ac_beat@,
                silence,
            ),
            Err(message) => message@ == (if beat@.len() > samples_per_beat {
                BEAT_TOO_LONG@
            } else {
                AC_BEAT_TOO_LONG@
            }),
        },
{
    if beat.len() > samples_per_beat {
        return Err(BEAT_TOO_LONG);
    }
    if ac_beat.len() > samples_per_beat {
        return Err(AC_BEAT_TOO_LONG);
    }
    let beats: usize = pattern.0.len();
    let playback_buffer_samples: usize = beats * samples_per_beat;
    let mut signal: Vec<T> = Vec::with_capacity(playback_buffer_samples);
    let ghost whole = bar(pattern@, samples_per_beat as nat, beat@, ac_beat@, silence);
    assert(0 * samples_per_beat == 0) by (nonlinear_arith);
    for i in 0..beats
        invariant
            beats == pattern@.len(),
            whole == bar(pattern@, samples_per_beat as nat, beat@, ac_beat@, silence),
            beats * samples_per_beat <= usize::MAX,
            beat@.len() <= samples_per_beat,
            ac_beat@.len() <= samples_per_beat,
            signal@ == whole.take(i * samples_per_beat),
            i * samples_per_beat <= whole.len(),
    {
        let ghost start = i * samples_per_beat;
        proof {
            lemma_mul_is_distributive_add_other_way(samples_per_beat as int, i as int, 1);
            lemma_mul_inequality(i + 1, beats as int, samples_per_beat as int);
            assert forall|j: int| 0 <= j < samples_per_beat implies #[trigger] whole[start + j]
                == beat_sample(pattern@[i as int], j, beat@, ac_beat@, silence) by {
                lemma_fundamental_div_mod_converse(
                    start + j,
                    samples_per_beat as int,
                    i as int,
                    j,
                );
            }
        }
        match pattern.0[i] {
            BeatPatternType::Accent => append_beat(&mut signal, ac_beat, samples_per_beat, silence),
            BeatPatternType::Beat => append_beat(&mut signal, beat, samples_per_beat, silence),
            BeatPatternType::Pause => append_beat(&mut signal, &[], samples_per_beat, silence),
        }
        assert(signal@ =~= whole.take(start + samples_per_beat)) by {
            assert forall|k: int| 0 <= k < start + samples_per_beat implies signal@[k] == whole[k] by {
                if k >= start {
                    assert(whole[start + (k - start)] == beat_sample(
                        pattern@[i as int],
                        k - start,
                        beat@,
                        ac_beat@,
                        silence,
                    ));
                }
            }
        }
    }
    assert(whole.take(whole.len() as int) == whole);
    Ok(
        AudioSignal {
            signal,
            index: 0,
            tone: BarTone {
                frequency: Double { bits: 0 },
                sample_rate,
                samples: playback_buffer_samples,
                overtones: 0,
                channels: 1,
            },
        },
    )
}

} // verus!
