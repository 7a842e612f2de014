//! What holds of the player as a whole.

use crate::bar::{bar, beat_sample, beat_samples, is_bar, rounded_quotient, BASE_BEAT_VALUE};
use crate::pattern::{BeatPattern, BeatPatternType};
use crate::player::{BeatPlayer, Change, Session};
use crate::signal::{AudioSignal, ToneConfiguration};
use crate::stream::announcements;
use crate::tracker::share;
use vstd::arithmetic::div_mod::*;
use vstd::arithmetic::mul::*;
use vstd::prelude::*;

verus! {

/// Every beat of a bar is the same length, and what it sounds like depends on nothing but
/// its own place in the pattern.
pub proof fn law_every_beat_is_the_same_length<T>(
    pattern: Seq<BeatPatternType>,
    samples_per_beat: nat,
    beat: Seq<T>,
    ac_beat: Seq<T>,
    silence: T,
    place: int,
)
    requires
        0 <= place < pattern.len(),
    ensures
        0 <= place * samples_per_beat <= (place + 1) * samples_per_beat <= bar(
            pattern,
            samples_per_beat,
            beat,
            ac_beat,
            silence,
        ).len(),
        bar(pattern, samples_per_beat, beat, ac_beat, silence).subrange(
            place * samples_per_beat,
            (place + 1) * samples_per_beat,
        ) == Seq::new(
            samples_per_beat,
            |j: int| beat_sample(pattern[place], j, beat, ac_beat, silence),
        ),
{
    let whole = bar(pattern, samples_per_beat, beat, ac_beat, silence);
    let start = place * samples_per_beat;
    lemma_mul_nonnegative(place, samples_per_beat as int);
    lemma_mul_is_distributive_add_other_way(samples_per_beat as int, place, 1);
    lemma_mul_inequality(place + 1, pattern.len() as int, samples_per_beat as int);
    assert forall|j: int| 0 <= j < samples_per_beat implies whole[start + j] == beat_sample(
        pattern[place],
        j,
        beat,
        ac_beat,
        silence,
    ) by {
        lemma_fundamental_div_mod_converse(start + j, samples_per_beat as int, place, j);
    }
    assert(whole.subrange(start, start + samples_per_beat) =~= Seq::new(
        samples_per_beat,
        |j: int| beat_sample(pattern[place], j, beat, ac_beat, silence),
    ));
}

/// The number of samples per beat is as near as can be to what the tempo asks for, unless
/// that is more than can be counted.
pub proof fn law_beat_length_is_nearest(bpm: nat, beat_value: nat, sample_rate: nat)
    requires
        bpm * beat_value > 0,
        beat_samples(bpm, beat_value, sample_rate) < isize::MAX,
    ensures
        ({
            let beats = bpm * beat_value;
            let minute = 60 * sample_rate * BASE_BEAT_VALUE as nat;
            let played = beat_samples(bpm, beat_value, sample_rate) * beats;
            -beats <= 2 * (played - minute) <= beats
        }),
{
    let beats = bpm * beat_value;
    let minute = 60 * sample_rate * BASE_BEAT_VALUE as nat;
    let samples = beat_samples(bpm, beat_value, sample_rate);
    assert(samples == rounded_quotient(minute, beats));
    lemma_fundamental_div_mod((minute + beats / 2) as int, beats as int);
    lemma_mul_is_commutative(samples as int, beats as int);
}

/// At a beat value of four the tempo counts the beats themselves: a minute holds as many of
/// them as it says.
pub proof fn law_base_beat_value_plays_the_tempo(bpm: nat, sample_rate: nat)
    requires
        bpm > 0,
        rounded_quotient(60 * sample_rate, bpm) <= isize::MAX,
    ensures
        beat_samples(bpm, BASE_BEAT_VALUE as nat, sample_rate) == rounded_quotient(
            60 * sample_rate,
            bpm,
        ),
{
    let whole = (60 * sample_rate + bpm / 2) as int;
    let samples = whole / bpm as int;
    let rest = whole % bpm as int;
    lemma_fundamental_div_mod(whole, bpm as int);
    lemma_mod_bound(whole, bpm as int);
    assert(bpm * 4 > 0 && 4 * (bpm * samples) == (bpm * 4) * samples) by (nonlinear_arith)
        requires
            bpm > 0,
    ;
    assert(0 <= 4 * rest + 2 * (bpm % 2) < bpm * 4);
    lemma_mul_is_commutative((bpm * 4) as int, samples);
    lemma_fundamental_div_mod_converse(
        (60 * sample_rate * 4 + (bpm * 4) / 2) as int,
        (bpm * 4) as int,
        samples,
        4 * rest + 2 * (bpm % 2) as int,
    );
}

/// A faster tempo never makes a beat longer.
pub proof fn law_faster_is_not_longer(bpm: nat, faster: nat, beat_value: nat, sample_rate: nat)
    requires
        bpm <= faster,
    ensures
        beat_samples(faster, beat_value, sample_rate) <= beat_samples(bpm, beat_value, sample_rate),
{
    let minute = 60 * sample_rate * BASE_BEAT_VALUE as nat;
    let (slow, fast) = (bpm * beat_value, faster * beat_value);
    lemma_mul_inequality(bpm as int, faster as int, beat_value as int);
    if slow > 0 {
        let samples = rounded_quotient(minute, fast);
        lemma_fundamental_div_mod((minute + fast / 2) as int, fast as int);
        if samples > 0 {
            assert((2 * samples - 1) * slow <= (2 * samples - 1) * fast) by (nonlinear_arith)
                requires
                    samples > 0,
                    slow <= fast,
            ;
            assert((2 * samples - 1) * fast == 2 * (fast * samples) - fast) by (nonlinear_arith);
            assert((2 * samples - 1) * slow == 2 * (samples * slow) - slow) by (nonlinear_arith);
            assert(samples * slow <= minute + slow / 2);
            lemma_div_is_ordered((samples * slow) as int, (minute + slow / 2) as int, slow as int);
            lemma_div_multiples_vanish(samples as int, slow as int);
        }
        lemma_div_pos_is_pos((minute + slow / 2) as int, slow as int);
    } else if sample_rate == 0 {
        if fast > 0 {
            lemma_basic_div((fast / 2) as int, fast as int);
        }
    }
}

/// The position alone says which beat is sounding: the beat number at a position in a
/// buffer that lays a bar out for some channels is the place in the pattern of the beat
/// that the sample there belongs to.
pub proof fn law_position_names_the_beat<T>(
    pattern: Seq<BeatPatternType>,
    samples_per_beat: nat,
    beat: Seq<T>,
    ac_beat: Seq<T>,
    silence: T,
    channels: nat,
    position: nat,
)
    requires
        position < bar(pattern, samples_per_beat, beat, ac_beat, silence).len() * channels,
    ensures
        ({
            let whole = bar(pattern, samples_per_beat, beat, ac_beat, silence);
            let number = position / share(whole.len() * channels, pattern.len());
            let frame = position / channels;
            &&& number < pattern.len()
            &&& number * samples_per_beat <= frame < (number + 1) * samples_per_beat
            &&& frame < whole.len()
            &&& whole[frame as int] == beat_sample(
                pattern[number as int],
                frame - number * samples_per_beat,
                beat,
                ac_beat,
                silence,
            )
        }),
{
    let whole = bar(pattern, samples_per_beat, beat, ac_beat, silence);
    let (n, s, c) = (pattern.len() as int, samples_per_beat as int, channels as int);
    let p = position as int;
    assert(n > 0 && s > 0 && c > 0) by (nonlinear_arith)
        requires
            0 <= p < (n * s) * c,
            n >= 0,
            s >= 0,
            c >= 0,
    ;
    assert(s * c > 0) by (nonlinear_arith)
        requires
            s > 0,
            c > 0,
    ;
    lemma_mul_is_associative(n, s, c);
    lemma_div_multiples_vanish(s * c, n);
    lemma_mul_is_commutative(n, s * c);
    assert(share(whole.len() * channels, pattern.len()) == s * c);
    let number = p / (s * c);
    let frame = p / c;
    lemma_div_denominator(p, c, s);
    lemma_mul_is_commutative(c, s);
    assert(number == frame / s);
    lemma_div_pos_is_pos(p, c);
    lemma_div_pos_is_pos(frame, s);
    lemma_multiply_divide_lt(p, c, n * s);
    lemma_multiply_divide_lt(frame, s, n);
    lemma_fundamental_div_mod(frame, s);
    lemma_mul_is_commutative(s, number);
    lemma_mul_is_distributive_add_other_way(s, number, 1);
}

/// The beats that sound at some positions.
pub open spec fn beats_at(samples_per_beat: usize, positions: Seq<usize>) -> Seq<usize> {
    positions.map_values(|position: usize| (position / samples_per_beat) as usize)
}

/// Each beat is announced once: as playback moves on through the bar, the announcements rise
/// strictly, and they are exactly the beats that sound at the reported positions.
pub proof fn law_each_beat_is_announced_once(samples_per_beat: usize, positions: Seq<usize>)
    requires
        samples_per_beat > 0,
        forall|i: int, j: int| 0 <= i <= j < positions.len() ==> positions[i] <= positions[j],
    ensures
        forall|i: int, j: int|
            0 <= i < j < announcements(samples_per_beat, positions).len() ==> announcements(
                samples_per_beat,
                positions,
            )[i] < announcements(samples_per_beat, positions)[j],
        announcements(samples_per_beat, positions).to_set() == beats_at(
            samples_per_beat,
            positions,
        ).to_set(),
        positions.len() > 0 ==> announcements(samples_per_beat, positions).len() > 0
            && announcements(samples_per_beat, positions).last() == (positions.last()
            / samples_per_beat) as usize,
    decreases positions.len(),
{
    let told = announcements(samples_per_beat, positions);
    let beats = beats_at(samples_per_beat, positions);
    if positions.len() > 0 {
        let before = positions.drop_last();
        let position = positions.last();
        let beat = (position / samples_per_beat) as usize;
        law_each_beat_is_announced_once(samples_per_beat, before);
        let told_before = announcements(samples_per_beat, before);
        let beats_before = beats_at(samples_per_beat, before);
        assert(beats =~= beats_before.push(beat));
        if before.len() > 0 {
            assert(before.last() == positions[positions.len() - 2]);
            lemma_div_is_ordered(before.last() as int, position as int, samples_per_beat as int);
        }
        assert forall|b: usize| told.contains(b) <==> beats.contains(b) by {
            assert(told_before.to_set().contains(b) == beats_before.to_set().contains(b));
            lemma_push_contains(told_before, beat, b);
            lemma_push_contains(beats_before, beat, b);
            if told == told_before {
                assert(told_before[told_before.len() - 1] == beat);
            }
        }
    }
    assert(told.to_set() =~= beats.to_set());
}

/// Each pass through the bar is announced: once playback has gone back in the bar, the
/// beats are announced as if from the first report on, however many beats the bar has.
pub proof fn law_each_pass_is_announced(
    samples_per_beat: usize,
    pass: Seq<usize>,
    next: Seq<usize>,
)
    requires
        pass.len() > 0,
        next.len() > 0 ==> next[0] < pass.last(),
    ensures
        announcements(samples_per_beat, pass + next) == announcements(samples_per_beat, pass)
            + announcements(samples_per_beat, next),
    decreases next.len(),
{
    if next.len() == 0 {
        assert(pass + next =~= pass);
    } else {
        let before = next.drop_last();
        law_each_pass_is_announced(samples_per_beat, pass, before);
        assert((pass + next).drop_last() =~= pass + before);
        assert((pass + next).last() == next.last());
        if before.len() == 0 {
            assert(pass + before =~= pass);
        } else {
            assert((pass + before).last() == before.last());
        }
        assert(announcements(samples_per_beat, pass + next) =~= announcements(
            samples_per_beat,
            pass,
        ) + announcements(samples_per_beat, next));
    }
}

/// Appending an element adds that one and no other.
proof fn lemma_push_contains(s: Seq<usize>, x: usize, y: usize)
    ensures
        s.push(x).contains(y) <==> s.contains(y) || x == y,
{
    if s.contains(y) {
        let i = choose|i: int| 0 <= i < s.len() && s[i] == y;
        assert(s.push(x)[i] == y);
    }
    assert(s.push(x)[s.len() as int] == x);
    if s.push(x).contains(y) && x != y {
        let i = choose|i: int| 0 <= i < s.push(x).len() && s.push(x)[i] == y;
        assert(s[i] == y);
    }
}

/// A change of tempo keeps the beat: a position that is carried over to the new bar as a
/// fraction of the bar is in the same beat as before.
///
/// This is said of the exact fraction, rounded down. The positions that streams are handed
/// come from arithmetic on doubles, which can fall one sample short of it.
pub proof fn law_tempo_change_keeps_the_beat(
    beats: nat,
    samples_per_beat: nat,
    next_samples_per_beat: nat,
    index: nat,
)
    requires
        index < beats * samples_per_beat,
        next_samples_per_beat > 0,
    ensures
        ({
            let carried = index * (beats * next_samples_per_beat) / (beats * samples_per_beat);
            let before = index / share(beats * samples_per_beat, beats);
            let after = carried / share(beats * next_samples_per_beat, beats);
            &&& carried < beats * next_samples_per_beat
            &&& after == before
        }),
{
    let (n, s, t) = (beats as int, samples_per_beat as int, next_samples_per_beat as int);
    let i = index as int;
    assert(n > 0 && s > 0) by (nonlinear_arith)
        requires
            0 <= i < n * s,
            n >= 0,
            s >= 0,
    ;
    lemma_mul_is_commutative(n, s);
    lemma_mul_is_commutative(n, t);
    lemma_div_multiples_vanish(s, n);
    lemma_div_multiples_vanish(t, n);
    assert(share(beats * samples_per_beat, beats) == s);
    assert(share(beats * next_samples_per_beat, beats) == t);
    let before = i / s;
    let offset = i % s;
    let carried = i * (n * t) / (n * s);
    assert(carried == (i * t) / s) by {
        assert(i * (n * t) == n * (i * t)) by (nonlinear_arith);
        lemma_common_factor_cancels(i * t, s, n);
    }
    lemma_fundamental_div_mod(i, s);
    lemma_mod_bound(i, s);
    assert(i * t == (before * t) * s + offset * t) by (nonlinear_arith)
        requires
            i == s * before + offset,
    ;
    assert(0 <= offset * t < t * s) by (nonlinear_arith)
        requires
            0 <= offset < s,
            t > 0,
    ;
    let extra = (offset * t) / s;
    lemma_div_pos_is_pos(offset * t, s);
    lemma_multiply_divide_lt(offset * t, s, t);
    lemma_hoist_over_denominator(offset * t, before * t, s as nat);
    assert(carried == before * t + extra);
    lemma_fundamental_div_mod_converse(carried, t, before, extra);
    assert(before < n) by {
        lemma_multiply_divide_lt(i, s, n);
    }
    assert(before * t + extra < n * t) by (nonlinear_arith)
        requires
            before + 1 <= n,
            extra < t,
            t > 0,
    ;
}

/// A beat value with which playback does not resume is taken back: the player ends up with
/// the settings that it had, whatever the audio device was asked for in between.
pub proof fn law_failed_beat_value_is_taken_back<S, W, L>(
    before: BeatPlayer<S, W, L>,
    beat_value: u16,
    stream: S,
    fallback: u16,
    changed: BeatPlayer<S, W, L>,
    asked: BeatPlayer<S, W, L>,
    after: BeatPlayer<S, W, L>,
)
    requires
        before.sets_beat_value(
            beat_value,
            Some(Change::Restart { stream, fallback }),
            changed,
        ),
        asked.same_settings(changed),
        asked.ends_beat_value(fallback, false, after),
    ensures
        after.same_settings(before),
        before.session().stream == Some(stream),
{
}

/// A pattern with which playback does not resume is taken back: the player ends up with
/// the new pattern if playback resumed, and with the previous one if it did not, whatever
/// the audio device was asked for in between.
pub proof fn law_failed_pattern_is_taken_back<S, W, L>(
    before: BeatPlayer<S, W, L>,
    pattern: Seq<BeatPatternType>,
    stream: S,
    fallback: BeatPattern,
    changed: BeatPlayer<S, W, L>,
    asked: BeatPlayer<S, W, L>,
    played: bool,
    after: BeatPlayer<S, W, L>,
)
    requires
        before.sets_pattern(pattern, Change::Restart { stream, fallback }, changed),
        asked.same_settings(changed),
        asked.ends_pattern(fallback, played, after),
    ensures
        after.pattern@ == (if played {
            pattern
        } else {
            before.pattern@
        }),
        after.bpm == before.bpm,
        after.beat_value == before.beat_value,
        after.same_tones(before),
{
}

/// A start that failed leaves nothing playing: neither where no stream was opened for the
/// order, nor where the one that was opened did not start.
pub proof fn law_failed_start_leaves_nothing_playing<S, W, L>(
    before: Session<S, W, L>,
    sample_rate: u32,
    channels: usize,
    stream: S,
    swap: W,
)
    requires
        before.stream is None,
    ensures
        before.ordered(sample_rate, channels).stream is None,
        before.ordered(sample_rate, channels).opened(stream, swap).stopped().stream is None,
{
}

/// Whether a synthesiser makes equal samples of equal tones.
pub open spec fn synth_repeats<T, G: Fn(&ToneConfiguration) -> Vec<T>>(synth: G) -> bool {
    forall|tone: &ToneConfiguration, a: Vec<T>, b: Vec<T>| #[trigger]
        call_ensures(synth, (tone,), a) && #[trigger] call_ensures(synth, (tone,), b) ==> a@ == b@
}

/// Whether two signals are alike in all that they hold.
pub open spec fn alike<T>(a: AudioSignal<T>, b: AudioSignal<T>) -> bool {
    a.signal@ == b.signal@ && a.index == b.index && a.tone == b.tone
}

/// Whether bars that are alike are laid out alike.
pub open spec fn expand_repeats<T, E: Fn(AudioSignal<T>, usize) -> AudioSignal<T>>(
    expand: E,
) -> bool {
    forall|
        a: AudioSignal<T>,
        b: AudioSignal<T>,
        channels: usize,
        from_a: AudioSignal<T>,
        from_b: AudioSignal<T>,
    |
        alike(a, b) && #[trigger] call_ensures(expand, (a, channels), from_a)
            && #[trigger] call_ensures(expand, (b, channels), from_b) ==> alike(from_a, from_b)
}

/// The bar depends on the tempo and the beat value through their product alone: players
/// that differ in nothing else get bars that are alike, or the same error.
pub proof fn law_equal_products_give_equal_bars<
    S,
    W,
    L,
    T,
    G: Fn(&ToneConfiguration) -> Vec<T>,
    E: Fn(AudioSignal<T>, usize) -> AudioSignal<T>,
>(
    one: BeatPlayer<S, W, L>,
    other: BeatPlayer<S, W, L>,
    sample_rate: u32,
    channels: usize,
    synth: G,
    expand: E,
    silence: T,
    filled: Result<AudioSignal<T>, &'static str>,
    other_filled: Result<AudioSignal<T>, &'static str>,
)
    requires
        one.same_tones(other),
        one.pattern@ == other.pattern@,
        one.bpm * one.beat_value == other.bpm * other.beat_value,
        synth_repeats(synth),
        expand_repeats(expand),
        one.fills(sample_rate, channels, synth, expand, silence, filled),
        other.fills(sample_rate, channels, synth, expand, silence, other_filled),
    ensures
        match (filled, other_filled) {
            (Ok(buffer), Ok(other_buffer)) => alike(buffer, other_buffer),
            (Err(message), Err(other_message)) => message@ == other_message@,
            _ => false,
        },
{
    assert(one.beat_length(sample_rate) == other.beat_length(sample_rate));
}

/// A slower tempo never fails where a faster one works, and it never gives a shorter bar.
pub proof fn law_slower_is_played_where_faster_is<
    S,
    W,
    L,
    T,
    G: Fn(&ToneConfiguration) -> Vec<T>,
    E: Fn(AudioSignal<T>, usize) -> AudioSignal<T>,
>(
    player: BeatPlayer<S, W, L>,
    slower: u16,
    sample_rate: u32,
    channels: usize,
    synth: G,
    expand: E,
    silence: T,
    buffer: AudioSignal<T>,
    slower_filled: Result<AudioSignal<T>, &'static str>,
)
    requires
        slower <= player.bpm,
        synth_repeats(synth),
        player.fills(sample_rate, channels, synth, expand, silence, Ok(buffer)),
        player.at_tempo(slower).fills(
            sample_rate,
            channels,
            synth,
            expand,
            silence,
            slower_filled,
        ),
    ensures
        slower_filled is Ok,
        channels <= 1 ==> slower_filled->Ok_0.signal@.len() >= buffer.signal@.len(),
{
    law_faster_is_not_longer(
        slower as nat,
        player.bpm as nat,
        player.beat_value as nat,
        sample_rate as nat,
    );
    lemma_mul_inequality(
        player.beat_length(sample_rate) as int,
        player.at_tempo(slower).beat_length(sample_rate) as int,
        player.pattern@.len() as int,
    );
    lemma_mul_is_commutative(
        player.beat_length(sample_rate) as int,
        player.pattern@.len() as int,
    );
    lemma_mul_is_commutative(
        player.at_tempo(slower).beat_length(sample_rate) as int,
        player.pattern@.len() as int,
    );
}

/// The number of channels decides neither whether there is a bar nor what it sounds like:
/// with several channels there is one where there is one with a single channel, laid out
/// from a bar that is alike, and otherwise the error is the same.
pub proof fn law_channels_only_lay_out<
    S,
    W,
    L,
    T,
    G: Fn(&ToneConfiguration) -> Vec<T>,
    E: Fn(AudioSignal<T>, usize) -> AudioSignal<T>,
>(
    player: BeatPlayer<S, W, L>,
    sample_rate: u32,
    channels: usize,
    synth: G,
    expand: E,
    silence: T,
    mono_filled: Result<AudioSignal<T>, &'static str>,
    filled: Result<AudioSignal<T>, &'static str>,
)
    requires
        synth_repeats(synth),
        player.fills(sample_rate, 1, synth, expand, silence, mono_filled),
        player.fills(sample_rate, channels, synth, expand, silence, filled),
    ensures
        match (mono_filled, filled) {
            (Ok(mono), Ok(buffer)) => if channels > 1 {
                exists|bar: AudioSignal<T>| #[trigger]
                    alike(bar, mono) && call_ensures(expand, (bar, channels), buffer)
            } else {
                alike(buffer, mono)
            },
            (Err(mono_message), Err(message)) => mono_message@ == message@,
            _ => false,
        },
{
    if player.tones_applicable() && channels > 1 && filled is Ok {
        let length = player.beat_length(sample_rate);
        let buffer = filled->Ok_0;
        let (beat, ac_beat) = choose|beat: Vec<T>, ac_beat: Vec<T>| #[trigger]
            call_ensures(synth, (&player.beat,), beat) && #[trigger] call_ensures(
                synth,
                (&player.ac_beat,),
                ac_beat,
            ) && player.builds_from(
                sample_rate,
                channels,
                beat@,
                ac_beat@,
                expand,
                silence,
                filled,
            );
        let bar = choose|mono: AudioSignal<T>| #[trigger]
            is_bar(mono, player.pattern@, length, sample_rate, beat@, ac_beat@, silence)
                && call_ensures(expand, (mono, channels), buffer);
        assert(alike(bar, mono_filled->Ok_0));
    }
}

/// A factor that dividend and divisor share cancels out.
proof fn lemma_common_factor_cancels(dividend: int, divisor: int, factor: int)
    requires
        divisor > 0,
        factor > 0,
        dividend >= 0,
    ensures
        (factor * dividend) / (factor * divisor) == dividend / divisor,
{
    lemma_mul_strictly_positive(factor, divisor);
    lemma_div_denominator(factor * dividend, factor, divisor);
    lemma_mul_is_commutative(factor, dividend);
    lemma_div_multiples_vanish(dividend, factor);
}

} // verus!
