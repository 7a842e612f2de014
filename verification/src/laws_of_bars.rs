//! What holds of bars and of the beats that are announced while they are played.
//!
//! Each law speaks of what a call comes back with.

use crate::bar::{assemble_bar, fits_vector, samples_per_beat};
use crate::pattern::BeatPattern;
use crate::signal::AudioSignal;
use crate::stream::Playback;
use crate::tracker::BeatTracker;
use vstd::arithmetic::div_mod::*;
use vstd::arithmetic::mul::*;
use vstd::prelude::*;

verus! {

/// The number of samples per beat is the whole number nearest to that of four minutes
/// divided by the product of tempo and beat value, halves upwards, or the most that can be
/// counted if that is less.
pub proof fn law_beat_takes_up_its_part_of_the_minute(
    bpm: u16,
    beat_value: u16,
    sample_rate: u32,
    res: usize,
)
    requires
        call_ensures(samples_per_beat, (bpm, beat_value, sample_rate), res),
    ensures
        res <= isize::MAX,
        bpm * beat_value > 0 ==> 2 * (res * (bpm * beat_value) - 240 * sample_rate) <= bpm
            * beat_value,
        bpm * beat_value > 0 && res < isize::MAX ==> 2 * (res * (bpm * beat_value) - 240
            * sample_rate) > -(bpm * beat_value),
        bpm * beat_value == 0 && sample_rate > 0 ==> res == isize::MAX,
        bpm * beat_value == 0 && sample_rate == 0 ==> res == 0,
{
    lemma_beat_samples(bpm as nat, beat_value as nat, sample_rate as nat);
}

/// The same of what a beat takes up.
pub(crate) proof fn lemma_beat_samples(bpm: nat, beat_value: nat, sample_rate: nat)
    ensures
        ({
            let samples = crate::bar::beat_samples(bpm, beat_value, sample_rate);
            let beats = bpm * beat_value;
            &&& samples <= isize::MAX
            &&& beats > 0 ==> 2 * (samples * beats - 240 * sample_rate) <= beats
            &&& beats > 0 && samples < isize::MAX ==> 2 * (samples * beats - 240 * sample_rate)
                > -beats
            &&& beats == 0 && sample_rate > 0 ==> samples == isize::MAX
            &&& beats == 0 && sample_rate == 0 ==> samples == 0
        }),
{
    let samples = crate::bar::beat_samples(bpm, beat_value, sample_rate);
    let beats = bpm * beat_value;
    assert(60 * sample_rate * 4 == 240 * sample_rate);
    if beats > 0 {
        let nearest = crate::bar::rounded_quotient(240 * sample_rate, beats);
        lemma_fundamental_div_mod((240 * sample_rate + beats / 2) as int, beats as int);
        lemma_mul_is_commutative(nearest as int, beats as int);
        lemma_mul_inequality(samples as int, nearest as int, beats as int);
    }
}

/// There is only one number of samples per beat that is nearest.
pub(crate) proof fn lemma_nearest_is_unique(a: int, b: int, beats: int, minute: int)
    requires
        beats > 0,
        a <= isize::MAX,
        b <= isize::MAX,
        2 * (a * beats - minute) <= beats,
        2 * (b * beats - minute) <= beats,
        a < isize::MAX ==> 2 * (a * beats - minute) > -beats,
        b < isize::MAX ==> 2 * (b * beats - minute) > -beats,
    ensures
        a == b,
{
    if a < b {
        lemma_mul_inequality(a + 1, b, beats);
        lemma_mul_is_distributive_add_other_way(beats, a, 1);
    } else if b < a {
        lemma_mul_inequality(b + 1, a, beats);
        lemma_mul_is_distributive_add_other_way(beats, b, 1);
    }
}

/// A vector can hold a bar if the samples can be counted and take up no more bytes than an
/// `isize` can count.
pub proof fn law_bars_that_fit<T>(beats: usize, samples_per_beat: usize, res: bool)
    requires
        call_ensures(fits_vector::<T>, (beats, samples_per_beat), res),
    ensures
        res <==> beats * samples_per_beat <= usize::MAX && (beats * samples_per_beat)
            * vstd::layout::size_of::<T>() <= isize::MAX,
{
}

/// A bar can be asked for if a vector can hold it, or if a tone outlasts its beat anyway.
pub proof fn law_bar_can_be_assembled<T: Copy>(
    pattern: &BeatPattern,
    samples_per_beat: usize,
    sample_rate: u32,
    beat: &[T],
    ac_beat: &[T],
    silence: T,
)
    requires
        beat@.len() > samples_per_beat || ac_beat@.len() > samples_per_beat || (
        pattern.0@.len() * samples_per_beat <= usize::MAX && (pattern.0@.len() * samples_per_beat)
            * vstd::layout::size_of::<T>() <= isize::MAX),
    ensures
        call_requires(
            assemble_bar::<T>,
            (pattern, samples_per_beat, sample_rate, beat, ac_beat, silence),
        ),
{
}

/// A bar is built iff neither tone is longer than a beat, and it is then as long as its
/// beats together, to be played from its start, in one channel and at its sample rate.
pub proof fn law_bar_is_as_long_as_its_beats<T: Copy>(
    pattern: &BeatPattern,
    samples_per_beat: usize,
    sample_rate: u32,
    beat: &[T],
    ac_beat: &[T],
    silence: T,
    res: Result<AudioSignal<T>, &'static str>,
)
    requires
        call_ensures(
            assemble_bar::<T>,
            (pattern, samples_per_beat, sample_rate, beat, ac_beat, silence),
            res,
        ),
    ensures
        beat@.len() > samples_per_beat ==> (res matches Err(message) && message@
            == "Beat to long to play at current bpm"@),
        beat@.len() <= samples_per_beat && ac_beat@.len() > samples_per_beat ==> (
        res matches Err(message) && message@
            == "Accentuated beat to long to play at current bpm"@),
        beat@.len() <= samples_per_beat && ac_beat@.len() <= samples_per_beat ==> (
        res matches Ok(buffer) && {
            &&& buffer.signal@.len() == pattern.0@.len() * samples_per_beat
            &&& buffer.index == 0
            &&& buffer.tone.frequency.bits == 0
            &&& buffer.tone.sample_rate == sample_rate
            &&& buffer.tone.samples == pattern.0@.len() * samples_per_beat
            &&& buffer.tone.overtones == 0
            &&& buffer.tone.channels == 1
        }),
{
}

/// Each beat of a bar is its own tone from the start of the beat on, sample by sample, and
/// silence for the rest.
pub proof fn law_beat_of_a_bar_is_its_tone_and_silence<T: Copy>(
    pattern: &BeatPattern,
    samples_per_beat: usize,
    sample_rate: u32,
    beat: &[T],
    ac_beat: &[T],
    silence: T,
    res: Result<AudioSignal<T>, &'static str>,
    place: int,
    offset: int,
)
    requires
        call_ensures(
            assemble_bar::<T>,
            (pattern, samples_per_beat, sample_rate, beat, ac_beat, silence),
            res,
        ),
        res is Ok,
        0 <= place < pattern.0@.len(),
        0 <= offset < samples_per_beat,
    ensures
        0 <= place * samples_per_beat + offset < res->Ok_0.signal@.len(),
        pattern.0@[place] is Accent && offset < ac_beat@.len() ==> res->Ok_0.signal@[place
            * samples_per_beat + offset] == ac_beat@[offset],
        pattern.0@[place] is Accent && offset >= ac_beat@.len() ==> res->Ok_0.signal@[place
            * samples_per_beat + offset] == silence,
        pattern.0@[place] is Beat && offset < beat@.len() ==> res->Ok_0.signal@[place
            * samples_per_beat + offset] == beat@[offset],
        pattern.0@[place] is Beat && offset >= beat@.len() ==> res->Ok_0.signal@[place
            * samples_per_beat + offset] == silence,
        pattern.0@[place] is Pause ==> res->Ok_0.signal@[place * samples_per_beat + offset]
            == silence,
{
    let s = samples_per_beat as int;
    lemma_mul_nonnegative(place, s);
    lemma_mul_is_distributive_add_other_way(s, place, 1);
    lemma_mul_inequality(place + 1, pattern.0@.len() as int, s);
    lemma_fundamental_div_mod_converse(place * s + offset, s, place, offset);
}

/// A buffer has one even share per beat only, of one sample at least.
proof fn lemma_share(length: int, samples: nat, beats: nat)
    requires
        length >= 1,
        length > 1 ==> length * (if beats > 0 {
            beats as int
        } else {
            1
        }) <= samples,
        samples < (length + 1) * (if beats > 0 {
            beats as int
        } else {
            1
        }),
    ensures
        crate::tracker::share(samples, beats) == length,
{
    let spread = if beats > 0 {
        beats as int
    } else {
        1
    };
    let even = samples as int / spread;
    lemma_fundamental_div_mod(samples as int, spread);
    lemma_mul_is_commutative(spread, even);
    lemma_mul_is_distributive_add_other_way(spread, even, 1);
    lemma_mul_is_distributive_add_other_way(spread, length, 1);
    if even < length {
        lemma_mul_inequality(even + 1, length, spread);
    } else {
        lemma_mul_inequality(length, even, spread);
        if even > length {
            lemma_mul_inequality(length + 1, even, spread);
        }
    }
}

proof fn lemma_usize_quotient(dividend: usize, divisor: int)
    requires
        divisor > 0,
    ensures
        0 <= dividend as int / divisor <= usize::MAX,
{
    lemma_div_pos_is_pos(dividend as int, divisor);
    lemma_div_is_ordered_by_denominator(dividend as int, 1, divisor);
}

/// A tracker's first report names the beat that the position lies in, where each beat has
/// an even share of the buffer, of one sample at least.
pub proof fn law_first_report_names_the_beat<F>(
    buffer_samples: usize,
    beats: usize,
    length: int,
    listener: F,
    made: BeatTracker<F>,
    tracker: &mut BeatTracker<F>,
    position: usize,
    res: Option<usize>,
)
    requires
        length >= 1,
        length > 1 ==> length * (if beats > 0 {
            beats as int
        } else {
            1
        }) <= buffer_samples,
        buffer_samples < (length + 1) * (if beats > 0 {
            beats as int
        } else {
            1
        }),
        call_ensures(BeatTracker::<F>::new, (buffer_samples, beats, Some(listener)), made),
        *old(tracker) == made,
        call_ensures(BeatTracker::<F>::report, (tracker, position), res),
    ensures
        res is Some,
        res->0 == position as int / length,
{
    lemma_share(length, buffer_samples as nat, beats as nat);
    lemma_usize_quotient(position, length);
}

/// A second report names the beat at its own position, unless that is the beat that the
/// first report was about: then it names none.
pub proof fn law_second_report_names_another_beat<F>(
    buffer_samples: usize,
    beats: usize,
    length: int,
    listener: F,
    made: BeatTracker<F>,
    tracker: &mut BeatTracker<F>,
    position: usize,
    res: Option<usize>,
    again: &mut BeatTracker<F>,
    next_position: usize,
    next_res: Option<usize>,
)
    requires
        length >= 1,
        length > 1 ==> length * (if beats > 0 {
            beats as int
        } else {
            1
        }) <= buffer_samples,
        buffer_samples < (length + 1) * (if beats > 0 {
            beats as int
        } else {
            1
        }),
        call_ensures(BeatTracker::<F>::new, (buffer_samples, beats, Some(listener)), made),
        *old(tracker) == made,
        call_ensures(BeatTracker::<F>::report, (tracker, position), res),
        *old(again) == *final(tracker),
        call_ensures(BeatTracker::<F>::report, (again, next_position), next_res),
    ensures
        next_res is None <==> next_position as int / length == position as int / length,
        next_res is Some ==> next_res->0 == next_position as int / length,
{
    lemma_share(length, buffer_samples as nat, beats as nat);
    lemma_usize_quotient(position, length);
    lemma_usize_quotient(next_position, length);
}

/// A tracker that goes on with another buffer names the beats of that buffer, and none as
/// long as the number is that of the last report.
pub proof fn law_retuned_tracker_goes_on<F>(
    buffer_samples: usize,
    beats: usize,
    length: int,
    listener: F,
    made: BeatTracker<F>,
    tracker: &mut BeatTracker<F>,
    position: usize,
    res: Option<usize>,
    retuned: &mut BeatTracker<F>,
    next_samples: usize,
    next_beats: usize,
    next_length: int,
    again: &mut BeatTracker<F>,
    next_position: usize,
    next_res: Option<usize>,
)
    requires
        length >= 1,
        length > 1 ==> length * (if beats > 0 {
            beats as int
        } else {
            1
        }) <= buffer_samples,
        buffer_samples < (length + 1) * (if beats > 0 {
            beats as int
        } else {
            1
        }),
        next_length >= 1,
        next_length > 1 ==> next_length * (if next_beats > 0 {
            next_beats as int
        } else {
            1
        }) <= next_samples,
        next_samples < (next_length + 1) * (if next_beats > 0 {
            next_beats as int
        } else {
            1
        }),
        call_ensures(BeatTracker::<F>::new, (buffer_samples, beats, Some(listener)), made),
        *old(tracker) == made,
        call_ensures(BeatTracker::<F>::report, (tracker, position), res),
        *old(retuned) == *final(tracker),
        call_ensures(BeatTracker::<F>::retune, (retuned, next_samples, next_beats), ()),
        *old(again) == *final(retuned),
        call_ensures(BeatTracker::<F>::report, (again, next_position), next_res),
    ensures
        next_res is None <==> next_position as int / next_length == position as int / length,
        next_res is Some ==> next_res->0 == next_position as int / next_length,
{
    lemma_share(length, buffer_samples as nat, beats as nat);
    lemma_share(next_length, next_samples as nat, next_beats as nat);
    lemma_usize_quotient(position, length);
    lemma_usize_quotient(next_position, next_length);
}

/// A tracker that was rewound names the beat at whatever position comes next.
pub proof fn law_rewound_tracker_names_the_beat<F>(
    buffer_samples: usize,
    beats: usize,
    length: int,
    listener: F,
    made: BeatTracker<F>,
    tracker: &mut BeatTracker<F>,
    position: usize,
    res: Option<usize>,
    rewound: &mut BeatTracker<F>,
    again: &mut BeatTracker<F>,
    next_position: usize,
    next_res: Option<usize>,
)
    requires
        length >= 1,
        length > 1 ==> length * (if beats > 0 {
            beats as int
        } else {
            1
        }) <= buffer_samples,
        buffer_samples < (length + 1) * (if beats > 0 {
            beats as int
        } else {
            1
        }),
        call_ensures(BeatTracker::<F>::new, (buffer_samples, beats, Some(listener)), made),
        *old(tracker) == made,
        call_ensures(BeatTracker::<F>::report, (tracker, position), res),
        *old(rewound) == *final(tracker),
        call_ensures(BeatTracker::<F>::rewind, (rewound,), ()),
        *old(again) == *final(rewound),
        call_ensures(BeatTracker::<F>::report, (again, next_position), next_res),
    ensures
        next_res is Some,
        next_res->0 == next_position as int / length,
{
    lemma_share(length, buffer_samples as nat, beats as nat);
    lemma_usize_quotient(next_position, length);
}

/// Whatever was announced before, a report names the beat at its position unless that one
/// was announced last, and remembers it.
pub proof fn law_report_remembers_the_beat<F>(
    tracker: &mut BeatTracker<F>,
    position: usize,
    res: Option<usize>,
)
    requires
        call_ensures(BeatTracker::<F>::report, (tracker, position), res),
    ensures
        final(tracker).samples_per_beat() == old(tracker).samples_per_beat(),
        final(tracker).listener() == old(tracker).listener(),
        old(tracker).listener() is None ==> res is None && final(tracker).last() == old(
            tracker,
        ).last(),
        old(tracker).listener() is Some ==> final(tracker).last() == Some(
            (position / old(tracker).samples_per_beat()) as usize,
        ),
        old(tracker).listener() is Some ==> (res is None <==> old(tracker).last() == Some(
            (position / old(tracker).samples_per_beat()) as usize,
        )),
        res is Some ==> res->0 == position / old(tracker).samples_per_beat(),
{
    lemma_usize_quotient(position, old(tracker).samples_per_beat() as int);
}

/// A tracker starts with nothing announced, retuning changes nothing but the length of its
/// beats, and rewinding nothing but what was announced last.
pub proof fn law_tracker_changes_one_thing_at_a_time<F>(
    buffer_samples: usize,
    beats: usize,
    length: int,
    listener: Option<F>,
    made: BeatTracker<F>,
    retuned: &mut BeatTracker<F>,
    rewound: &mut BeatTracker<F>,
)
    requires
        length >= 1,
        length > 1 ==> length * (if beats > 0 {
            beats as int
        } else {
            1
        }) <= buffer_samples,
        buffer_samples < (length + 1) * (if beats > 0 {
            beats as int
        } else {
            1
        }),
        call_ensures(BeatTracker::<F>::new, (buffer_samples, beats, listener), made),
        call_ensures(BeatTracker::<F>::retune, (retuned, buffer_samples, beats), ()),
        call_ensures(BeatTracker::<F>::rewind, (rewound,), ()),
    ensures
        made.samples_per_beat() == length,
        made.last() is None,
        made.listener() == listener,
        final(retuned).samples_per_beat() == length,
        final(retuned).last() == old(retuned).last(),
        final(retuned).listener() == old(retuned).listener(),
        final(rewound).samples_per_beat() == old(rewound).samples_per_beat(),
        final(rewound).last() is None,
        final(rewound).listener() == old(rewound).listener(),
{
    lemma_share(length, buffer_samples as nat, beats as nat);
}

/// A tracker without a listener never announces anything.
pub proof fn law_nothing_is_announced_without_a_listener<F>(
    buffer_samples: usize,
    beats: usize,
    made: BeatTracker<F>,
    tracker: &mut BeatTracker<F>,
    position: usize,
    res: Option<usize>,
    again: &mut BeatTracker<F>,
    next_position: usize,
    next_res: Option<usize>,
)
    requires
        call_ensures(BeatTracker::<F>::new, (buffer_samples, beats, None), made),
        *old(tracker) == made,
        call_ensures(BeatTracker::<F>::report, (tracker, position), res),
        *old(again) == *final(tracker),
        call_ensures(BeatTracker::<F>::report, (again, next_position), next_res),
    ensures
        res is None,
        next_res is None,
{
}

/// A tracker's listener is the one that it was made with, also after reports, retuning and
/// rewinding.
pub proof fn law_tracker_keeps_its_listener<F>(
    buffer_samples: usize,
    beats: usize,
    listener: Option<F>,
    made: BeatTracker<F>,
    tracker: &mut BeatTracker<F>,
    position: usize,
    res: Option<usize>,
    retuned: &mut BeatTracker<F>,
    next_samples: usize,
    next_beats: usize,
    rewound: &mut BeatTracker<F>,
    asked: &BeatTracker<F>,
    told: Option<&F>,
)
    requires
        call_ensures(BeatTracker::<F>::new, (buffer_samples, beats, listener), made),
        *old(tracker) == made,
        call_ensures(BeatTracker::<F>::report, (tracker, position), res),
        *old(retuned) == *final(tracker),
        call_ensures(BeatTracker::<F>::retune, (retuned, next_samples, next_beats), ()),
        *old(rewound) == *final(retuned),
        call_ensures(BeatTracker::<F>::rewind, (rewound,), ()),
        *asked == *final(rewound),
        call_ensures(BeatTracker::<F>::on_beat, (asked,), told),
    ensures
        told is Some <==> listener is Some,
        told is Some ==> *told->0 == listener->0,
{
}

/// Playback starts with the bar that it is given, and its first report names the beat in
/// whose even share of the bar the position then lies, wherever that is.
pub proof fn law_playback_names_its_first_beat<T, F>(
    buffer: AudioSignal<T>,
    beats: usize,
    length: int,
    listener: F,
    made: Playback<T, F>,
    playback: &mut Playback<T, F>,
    res: Option<usize>,
)
    requires
        length >= 1,
        length > 1 ==> length * (if beats > 0 {
            beats as int
        } else {
            1
        }) <= buffer.signal@.len(),
        buffer.signal@.len() < (length + 1) * (if beats > 0 {
            beats as int
        } else {
            1
        }),
        call_ensures(Playback::<T, F>::new, (buffer, beats, Some(listener)), made),
        *old(playback) == (Playback { current: old(playback).current, ..made }),
        call_ensures(Playback::<T, F>::report, (playback,), res),
    ensures
        made.current == buffer,
        made.beats == beats,
        final(playback).current == old(playback).current,
        final(playback).beats == beats,
        res is Some,
        res->0 == old(playback).current.index as int / length,
{
    lemma_share(length, buffer.signal@.len(), beats as nat);
    lemma_usize_quotient(old(playback).current.index, length);
}

/// The next report names the beat at its own position if that is another beat than the one
/// of the first report, or if playback has gone back in the bar since then, and it names
/// none otherwise.
pub proof fn law_playback_names_each_beat_that_starts<T, F>(
    buffer: AudioSignal<T>,
    beats: usize,
    length: int,
    listener: F,
    made: Playback<T, F>,
    playback: &mut Playback<T, F>,
    res: Option<usize>,
    again: &mut Playback<T, F>,
    next_res: Option<usize>,
)
    requires
        length >= 1,
        length > 1 ==> length * (if beats > 0 {
            beats as int
        } else {
            1
        }) <= buffer.signal@.len(),
        buffer.signal@.len() < (length + 1) * (if beats > 0 {
            beats as int
        } else {
            1
        }),
        call_ensures(Playback::<T, F>::new, (buffer, beats, Some(listener)), made),
        *old(playback) == (Playback { current: old(playback).current, ..made }),
        call_ensures(Playback::<T, F>::report, (playback,), res),
        *old(again) == (Playback { current: old(again).current, ..*final(playback) }),
        call_ensures(Playback::<T, F>::report, (again,), next_res),
    ensures
        next_res is None <==> old(again).current.index >= old(playback).current.index && old(
            again,
        ).current.index as int / length == old(playback).current.index as int / length,
        next_res is Some ==> next_res->0 == old(again).current.index as int / length,
{
    lemma_share(length, buffer.signal@.len(), beats as nat);
    lemma_usize_quotient(old(playback).current.index, length);
    lemma_usize_quotient(old(again).current.index, length);
}

/// Playback that goes on with another bar takes it over at the given position and keeps the
/// number of beats. It names none as long as it stays in the beat of the last report, and
/// then the beats of the new bar.
pub proof fn law_playback_goes_on_with_another_bar<T, F>(
    buffer: AudioSignal<T>,
    beats: usize,
    length: int,
    listener: F,
    made: Playback<T, F>,
    playback: &mut Playback<T, F>,
    res: Option<usize>,
    swapped: &mut Playback<T, F>,
    next: AudioSignal<T>,
    next_length: int,
    index: usize,
    again: &mut Playback<T, F>,
    next_res: Option<usize>,
)
    requires
        length >= 1,
        length > 1 ==> length * (if beats > 0 {
            beats as int
        } else {
            1
        }) <= buffer.signal@.len(),
        buffer.signal@.len() < (length + 1) * (if beats > 0 {
            beats as int
        } else {
            1
        }),
        next_length >= 1,
        next_length > 1 ==> next_length * (if beats > 0 {
            beats as int
        } else {
            1
        }) <= next.signal@.len(),
        next.signal@.len() < (next_length + 1) * (if beats > 0 {
            beats as int
        } else {
            1
        }),
        call_ensures(Playback::<T, F>::new, (buffer, beats, Some(listener)), made),
        *old(playback) == (Playback { current: old(playback).current, ..made }),
        call_ensures(Playback::<T, F>::report, (playback,), res),
        *old(swapped) == *final(playback),
        call_ensures(Playback::<T, F>::swap_in, (swapped, next, index), ()),
        *old(again) == (Playback { current: old(again).current, ..*final(swapped) }),
        call_ensures(Playback::<T, F>::report, (again,), next_res),
    ensures
        final(swapped).current.signal == next.signal,
        final(swapped).current.tone == next.tone,
        final(swapped).current.index == index,
        final(swapped).beats == beats,
        next_res is None <==> old(again).current.index >= index && old(again).current.index as int
            / next_length == old(playback).current.index as int / length,
        next_res is Some ==> next_res->0 == old(again).current.index as int / next_length,
{
    lemma_share(length, buffer.signal@.len(), beats as nat);
    lemma_share(next_length, next.signal@.len(), beats as nat);
    lemma_usize_quotient(old(playback).current.index, length);
    lemma_usize_quotient(old(again).current.index, next_length);
}

/// Another bar is taken over at the given position, with as many beats as before. What was
/// announced last and the listener stay, whatever they are.
pub proof fn law_other_bar_is_taken_over<T, F>(
    playback: &mut Playback<T, F>,
    next: AudioSignal<T>,
    index: usize,
    length: int,
)
    requires
        length >= 1,
        length > 1 ==> length * (if old(playback).beats > 0 {
            old(playback).beats as int
        } else {
            1
        }) <= next.signal@.len(),
        next.signal@.len() < (length + 1) * (if old(playback).beats > 0 {
            old(playback).beats as int
        } else {
            1
        }),
        call_ensures(Playback::<T, F>::swap_in, (playback, next, index), ()),
    ensures
        final(playback).current.signal == next.signal,
        final(playback).current.tone == next.tone,
        final(playback).current.index == index,
        final(playback).reported == index,
        final(playback).beats == old(playback).beats,
        final(playback).tracker.samples_per_beat() == length,
        final(playback).tracker.last() == old(playback).tracker.last(),
        final(playback).tracker.listener() == old(playback).tracker.listener(),
{
    lemma_share(length, next.signal@.len(), old(playback).beats as nat);
}

/// Whatever was announced before, playback names the beat at its position unless that one
/// was announced last and the position is not before the one reported on last.
pub proof fn law_playback_remembers_the_beat<T, F>(
    playback: &mut Playback<T, F>,
    res: Option<usize>,
)
    requires
        call_ensures(Playback::<T, F>::report, (playback,), res),
    ensures
        ({
            let position = old(playback).current.index;
            let beat = (position / old(playback).tracker.samples_per_beat()) as usize;
            &&& final(playback).current == old(playback).current
            &&& final(playback).beats == old(playback).beats
            &&& final(playback).reported == position
            &&& final(playback).tracker.samples_per_beat() == old(
                playback,
            ).tracker.samples_per_beat()
            &&& final(playback).tracker.listener() == old(playback).tracker.listener()
            &&& old(playback).tracker.listener() is None ==> res is None
            &&& old(playback).tracker.listener() is Some ==> final(playback).tracker.last()
                == Some(beat)
            &&& old(playback).tracker.listener() is Some ==> (res is None <==> position >= old(
                playback,
            ).reported && old(playback).tracker.last() == Some(beat))
            &&& res is Some ==> res->0 == beat
        }),
{
}

/// The listener of a playback is the one that it was made with, also after a report and with
/// another bar.
pub proof fn law_playback_keeps_its_listener<T, F>(
    buffer: AudioSignal<T>,
    beats: usize,
    listener: Option<F>,
    made: Playback<T, F>,
    playback: &mut Playback<T, F>,
    res: Option<usize>,
    swapped: &mut Playback<T, F>,
    next: AudioSignal<T>,
    index: usize,
    asked: &Playback<T, F>,
    told: Option<&F>,
)
    requires
        call_ensures(Playback::<T, F>::new, (buffer, beats, listener), made),
        *old(playback) == (Playback { current: old(playback).current, ..made }),
        call_ensures(Playback::<T, F>::report, (playback,), res),
        *old(swapped) == *final(playback),
        call_ensures(Playback::<T, F>::swap_in, (swapped, next, index), ()),
        *asked == *final(swapped),
        call_ensures(BeatTracker::<F>::on_beat, (&asked.tracker,), told),
    ensures
        told is Some <==> listener is Some,
        told is Some ==> *told->0 == listener->0,
{
}

/// Playback without a listener never announces anything.
pub proof fn law_playback_is_silent_without_a_listener<T, F>(
    buffer: AudioSignal<T>,
    beats: usize,
    made: Playback<T, F>,
    swapped: &mut Playback<T, F>,
    next: AudioSignal<T>,
    index: usize,
    playback: &mut Playback<T, F>,
    res: Option<usize>,
)
    requires
        call_ensures(Playback::<T, F>::new, (buffer, beats, None), made),
        *old(swapped) == (Playback { current: old(swapped).current, ..made }),
        call_ensures(Playback::<T, F>::swap_in, (swapped, next, index), ()),
        *old(playback) == (Playback { current: old(playback).current, ..*final(swapped) }),
        call_ensures(Playback::<T, F>::report, (playback,), res),
    ensures
        res is None,
{
}

} // verus!
