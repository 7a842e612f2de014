//! What holds of the bars that a player builds, hands over and starts with.
//!
//! Each law speaks of what a call comes back with, and of the fields of the player.

use crate::bar::{beat_samples, is_bar};
use crate::double::lemma_applicable_by_bits;
use crate::laws_of_bars::{lemma_beat_samples, lemma_nearest_is_unique};
use crate::pattern::BeatPatternType;
use crate::player::{BeatPlayer, DeviceReport, StreamOrder, TempoChange};
use crate::signal::{AudioSignal, ToneConfiguration};
use vstd::arithmetic::div_mod::*;
use vstd::arithmetic::mul::*;
use vstd::prelude::*;

verus! {

/// The bar of one channel holds as many samples as its beats together, and each beat takes
/// up the whole number of samples that is nearest to the part of four minutes that the
/// player's tempo and beat value leave to it, at every sample rate.
pub proof fn law_filled_bar_plays_the_tempo<
    S,
    W,
    L,
    T: Copy,
    G: Fn(&ToneConfiguration) -> Vec<T>,
    E: Fn(AudioSignal<T>, usize) -> AudioSignal<T>,
>(
    player: &BeatPlayer<S, W, L>,
    sample_rate: u32,
    channels: usize,
    synth: &G,
    expand: &E,
    silence: T,
    buffer: AudioSignal<T>,
)
    requires
        call_ensures(
            BeatPlayer::<S, W, L>::_fill_playback_buffer::<T, G, E>,
            (player, sample_rate, channels, synth, expand, silence),
            Ok(buffer),
        ),
        channels <= 1,
        player.bpm * player.beat_value > 0,
        player.pattern.0@.len() > 0,
    ensures
        ({
            let beats = player.bpm * player.beat_value;
            let length = buffer.signal@.len() as int / player.pattern.0@.len() as int;
            &&& buffer.signal@.len() == player.pattern.0@.len() * length
            &&& 2 * (length * beats - 240 * sample_rate) <= beats
            &&& length < isize::MAX ==> 2 * (length * beats - 240 * sample_rate) > -beats
        }),
{
    let length = beat_samples(player.bpm as nat, player.beat_value as nat, sample_rate as nat);
    lemma_beat_samples(player.bpm as nat, player.beat_value as nat, sample_rate as nat);
    lemma_mul_is_commutative(player.pattern.0@.len() as int, length as int);
    lemma_div_by_multiple(length as int, player.pattern.0@.len() as int);
}

/// Tones without a frequency to play give no bar, whatever else is set.
pub proof fn law_nothing_is_filled_without_a_frequency<
    S,
    W,
    L,
    T: Copy,
    G: Fn(&ToneConfiguration) -> Vec<T>,
    E: Fn(AudioSignal<T>, usize) -> AudioSignal<T>,
>(
    player: &BeatPlayer<S, W, L>,
    sample_rate: u32,
    channels: usize,
    synth: &G,
    expand: &E,
    silence: T,
    res: Result<AudioSignal<T>, &'static str>,
)
    requires
        call_ensures(
            BeatPlayer::<S, W, L>::_fill_playback_buffer::<T, G, E>,
            (player, sample_rate, channels, synth, expand, silence),
            res,
        ),
        ({
            let beat = player.beat.frequency.bits;
            let accent = player.ac_beat.frequency.bits;
            ||| beat == 0
            ||| 0x8000_0000_0000_0000 <= beat <= 0xfff0_0000_0000_0000
            ||| accent == 0
            ||| 0x8000_0000_0000_0000 <= accent <= 0xfff0_0000_0000_0000
        }),
    ensures
        res matches Err(message) && message@ == "Tone Configuration not applicable"@,
{
    lemma_applicable_by_bits(player.beat.frequency);
    lemma_applicable_by_bits(player.ac_beat.frequency);
}

/// What comes of filling a bar, sample by sample.
proof fn lemma_filled<
    S,
    W,
    L,
    T: Copy,
    G: Fn(&ToneConfiguration) -> Vec<T>,
    E: Fn(AudioSignal<T>, usize) -> AudioSignal<T>,
>(
    player: BeatPlayer<S, W, L>,
    sample_rate: u32,
    channels: usize,
    synth: &G,
    expand: &E,
    silence: T,
    res: Result<AudioSignal<T>, &'static str>,
    beats: int,
    length: int,
)
    requires
        player.fills(sample_rate, channels, *synth, *expand, silence, res),
        0 < player.beat.frequency.bits < 0x8000_0000_0000_0000 || player.beat.frequency.bits
            > 0xfff0_0000_0000_0000,
        0 < player.ac_beat.frequency.bits < 0x8000_0000_0000_0000
            || player.ac_beat.frequency.bits > 0xfff0_0000_0000_0000,
        beats == player.bpm * player.beat_value,
        0 <= length <= isize::MAX,
        beats > 0 ==> 2 * (length * beats - 240 * sample_rate) <= beats,
        beats > 0 && length < isize::MAX ==> 2 * (length * beats - 240 * sample_rate) > -beats,
        beats == 0 ==> length == (if sample_rate > 0 {
            isize::MAX as int
        } else {
            0
        }),
    ensures
        exists|beat: Vec<T>, ac_beat: Vec<T>|
            {
                &&& #[trigger] call_ensures(*synth, (&player.beat,), beat)
                &&& #[trigger] call_ensures(*synth, (&player.ac_beat,), ac_beat)
                &&& match res {
                    Err(message) => {
                        ||| beat@.len() > length && message@
                            == "Beat to long to play at current bpm"@
                        ||| beat@.len() <= length && ac_beat@.len() > length && message@
                            == "Accentuated beat to long to play at current bpm"@
                    },
                    Ok(buffer) => beat@.len() <= length && ac_beat@.len() <= length && (
                    exists|mono: AudioSignal<T>|
                        {
                            &&& #[trigger] mono.signal@.len() == player.pattern.0@.len() * length
                            &&& forall|i: int|
                                0 <= i < mono.signal@.len() ==> #[trigger] mono.signal@[i] == (
                                match player.pattern.0@[i / length] {
                                    BeatPatternType::Accent => if i % length < ac_beat@.len() {
                                        ac_beat@[i % length]
                                    } else {
                                        silence
                                    },
                                    BeatPatternType::Beat => if i % length < beat@.len() {
                                        beat@[i % length]
                                    } else {
                                        silence
                                    },
                                    BeatPatternType::Pause => silence,
                                })
                            &&& mono.index == 0
                            &&& mono.tone.frequency.bits == 0
                            &&& mono.tone.sample_rate == sample_rate
                            &&& mono.tone.samples == player.pattern.0@.len() * length
                            &&& mono.tone.overtones == 0
                            &&& mono.tone.channels == 1
                            &&& channels <= 1 ==> buffer == mono
                            &&& channels > 1 ==> call_ensures(*expand, (mono, channels), buffer)
                        }),
                }
            },
{
    lemma_beat_samples(player.bpm as nat, player.beat_value as nat, sample_rate as nat);
    if beats > 0 {
        lemma_nearest_is_unique(
            length,
            beat_samples(player.bpm as nat, player.beat_value as nat, sample_rate as nat) as int,
            beats,
            240 * sample_rate,
        );
    }
    lemma_applicable_by_bits(player.beat.frequency);
    lemma_applicable_by_bits(player.ac_beat.frequency);
    let (beat, ac_beat): (Vec<T>, Vec<T>) = choose|beat: Vec<T>, ac_beat: Vec<T>| #[trigger]
        call_ensures(*synth, (&player.beat,), beat) && #[trigger] call_ensures(
            *synth,
            (&player.ac_beat,),
            ac_beat,
        ) && player.builds_from(
            sample_rate,
            channels,
            beat@,
            ac_beat@,
            *expand,
            silence,
            res,
        );
    assert(call_ensures(*synth, (&player.beat,), beat));
    assert(call_ensures(*synth, (&player.ac_beat,), ac_beat));
    if res is Ok {
        let buffer = res->Ok_0;
        let mono = if channels > 1 {
            choose|mono: AudioSignal<T>| #[trigger]
                is_bar(
                    mono,
                    player.pattern@,
                    length as nat,
                    sample_rate,
                    beat@,
                    ac_beat@,
                    silence,
                ) && call_ensures(*expand, (mono, channels), buffer)
        } else {
            buffer
        };
        assert(is_bar(
            mono,
            player.pattern@,
            length as nat,
            sample_rate,
            beat@,
            ac_beat@,
            silence,
        ));
        assert(mono.signal@.len() == player.pattern.0@.len() * length);
    }
}

/// Tones with a frequency are made for a bar. If one of them outlasts its beat there is no
/// bar, the normal one being looked at first. Otherwise the bar holds the beats of the
/// pattern in turn, each its tone and then silence, and is laid out for several channels.
pub proof fn law_filled_bar_holds_the_beats<
    S,
    W,
    L,
    T: Copy,
    G: Fn(&ToneConfiguration) -> Vec<T>,
    E: Fn(AudioSignal<T>, usize) -> AudioSignal<T>,
>(
    player: &BeatPlayer<S, W, L>,
    sample_rate: u32,
    channels: usize,
    synth: &G,
    expand: &E,
    silence: T,
    res: Result<AudioSignal<T>, &'static str>,
    beats: int,
    length: int,
)
    requires
        call_ensures(
            BeatPlayer::<S, W, L>::_fill_playback_buffer::<T, G, E>,
            (player, sample_rate, channels, synth, expand, silence),
            res,
        ),
        0 < player.beat.frequency.bits < 0x8000_0000_0000_0000 || player.beat.frequency.bits
            > 0xfff0_0000_0000_0000,
        0 < player.ac_beat.frequency.bits < 0x8000_0000_0000_0000
            || player.ac_beat.frequency.bits > 0xfff0_0000_0000_0000,
        beats == player.bpm * player.beat_value,
        0 <= length <= isize::MAX,
        beats > 0 ==> 2 * (length * beats - 240 * sample_rate) <= beats,
        beats > 0 && length < isize::MAX ==> 2 * (length * beats - 240 * sample_rate) > -beats,
        beats == 0 ==> length == (if sample_rate > 0 {
            isize::MAX as int
        } else {
            0
        }),
    ensures
        exists|beat: Vec<T>, ac_beat: Vec<T>|
            {
                &&& #[trigger] call_ensures(*synth, (&player.beat,), beat)
                &&& #[trigger] call_ensures(*synth, (&player.ac_beat,), ac_beat)
                &&& match res {
                    Err(message) => {
                        ||| beat@.len() > length && message@
                            == "Beat to long to play at current bpm"@
                        ||| beat@.len() <= length && ac_beat@.len() > length && message@
                            == "Accentuated beat to long to play at current bpm"@
                    },
                    Ok(buffer) => beat@.len() <= length && ac_beat@.len() <= length && (
                    exists|mono: AudioSignal<T>|
                        {
                            &&& #[trigger] mono.signal@.len() == player.pattern.0@.len() * length
                            &&& forall|i: int|
                                0 <= i < mono.signal@.len() ==> #[trigger] mono.signal@[i] == (
                                match player.pattern.0@[i / length] {
                                    BeatPatternType::Accent => if i % length < ac_beat@.len() {
                                        ac_beat@[i % length]
                                    } else {
                                        silence
                                    },
                                    BeatPatternType::Beat => if i % length < beat@.len() {
                                        beat@[i % length]
                                    } else {
                                        silence
                                    },
                                    BeatPatternType::Pause => silence,
                                })
                            &&& mono.index == 0
                            &&& mono.tone.frequency.bits == 0
                            &&& mono.tone.sample_rate == sample_rate
                            &&& mono.tone.samples == player.pattern.0@.len() * length
                            &&& mono.tone.overtones == 0
                            &&& mono.tone.channels == 1
                            &&& channels <= 1 ==> buffer == mono
                            &&& channels > 1 ==> call_ensures(*expand, (mono, channels), buffer)
                        }),
                }
            },
{
    lemma_filled(*player, sample_rate, channels, synth, expand, silence, res, beats, length);
}

/// A change of the tempo to zero is refused, and a tempo that is refused stays as it was. Any
/// other tempo is the player's from then on. Nothing else changes.
pub proof fn law_tempo_is_set_or_stays<
    S,
    W,
    L,
    T: Copy,
    G: Fn(&ToneConfiguration) -> Vec<T>,
    E: Fn(AudioSignal<T>, usize) -> AudioSignal<T>,
>(
    player: &mut BeatPlayer<S, W, L>,
    bpm: u16,
    synth: &G,
    expand: &E,
    silence: T,
    res: TempoChange<T>,
)
    requires
        call_ensures(
            BeatPlayer::<S, W, L>::set_bpm::<T, G, E>,
            (player, bpm, synth, expand, silence),
            res,
        ),
    ensures
        bpm == 0 ==> res is Refused,
        res is Refused ==> final(player).bpm == old(player).bpm,
        res is Settled || res is HandOver ==> final(player).bpm == bpm,
        final(player).beat_value == old(player).beat_value,
        final(player).beat == old(player).beat,
        final(player).ac_beat == old(player).ac_beat,
        final(player).pattern == old(player).pattern,
        final(player).connection@.stream == old(player).connection@.stream,
        final(player).connection@.swap_buffer == old(player).connection@.swap_buffer,
        final(player).connection@.stream_config == old(player).connection@.stream_config,
        final(player).connection@.on_beat == old(player).connection@.on_beat,
{
}

/// Without a running stream that takes new bars, every tempo above zero is set, and that is
/// all.
pub proof fn law_tempo_settles_where_nothing_plays<
    S,
    W,
    L,
    T: Copy,
    G: Fn(&ToneConfiguration) -> Vec<T>,
    E: Fn(AudioSignal<T>, usize) -> AudioSignal<T>,
>(
    player: &mut BeatPlayer<S, W, L>,
    bpm: u16,
    synth: &G,
    expand: &E,
    silence: T,
    res: TempoChange<T>,
)
    requires
        call_ensures(
            BeatPlayer::<S, W, L>::set_bpm::<T, G, E>,
            (player, bpm, synth, expand, silence),
            res,
        ),
        bpm > 0,
        old(player).connection@.swap_buffer is None || old(
            player,
        ).connection@.stream_config is None,
    ensures
        res is Settled,
        final(player).bpm == bpm,
{
}

/// While a stream is running that takes new bars, a tempo above zero never just settles,
/// however many channels the stream has. The tempo is refused if a tone has no frequency to
/// play.
pub proof fn law_tempo_never_settles_while_playing<
    S,
    W,
    L,
    T: Copy,
    G: Fn(&ToneConfiguration) -> Vec<T>,
    E: Fn(AudioSignal<T>, usize) -> AudioSignal<T>,
>(
    player: &mut BeatPlayer<S, W, L>,
    bpm: u16,
    synth: &G,
    expand: &E,
    silence: T,
    res: TempoChange<T>,
)
    requires
        call_ensures(
            BeatPlayer::<S, W, L>::set_bpm::<T, G, E>,
            (player, bpm, synth, expand, silence),
            res,
        ),
        bpm > 0,
        old(player).connection@.stream is Some,
        old(player).connection@.stream is Some ==> old(player).connection@.swap_buffer is Some
            && old(player).connection@.stream_config is Some,
    ensures
        !(res is Settled),
        ({
            let beat = old(player).beat.frequency.bits;
            let accent = old(player).ac_beat.frequency.bits;
            ||| beat == 0
            ||| 0x8000_0000_0000_0000 <= beat <= 0xfff0_0000_0000_0000
            ||| accent == 0
            ||| 0x8000_0000_0000_0000 <= accent <= 0xfff0_0000_0000_0000
        }) ==> res is Refused,
{
    lemma_applicable_by_bits(old(player).beat.frequency);
    lemma_applicable_by_bits(old(player).ac_beat.frequency);
}

/// While a stream is running that takes new bars, a tempo above zero is refused if a tone
/// outlasts its beat at that tempo. Otherwise the stream is handed the bar of that tempo,
/// at its own sample rate and for its own channels, however many it has.
pub proof fn law_tempo_hands_over_its_bar<
    S,
    W,
    L,
    T: Copy,
    G: Fn(&ToneConfiguration) -> Vec<T>,
    E: Fn(AudioSignal<T>, usize) -> AudioSignal<T>,
>(
    player: &mut BeatPlayer<S, W, L>,
    bpm: u16,
    synth: &G,
    expand: &E,
    silence: T,
    res: TempoChange<T>,
    sample_rate: u32,
    channels: usize,
    beats: int,
    length: int,
)
    requires
        call_ensures(
            BeatPlayer::<S, W, L>::set_bpm::<T, G, E>,
            (player, bpm, synth, expand, silence),
            res,
        ),
        bpm > 0,
        old(player).connection@.swap_buffer is Some,
        old(player).connection@.stream_config == Some((sample_rate, channels)),
        0 < old(player).beat.frequency.bits < 0x8000_0000_0000_0000
            || old(player).beat.frequency.bits > 0xfff0_0000_0000_0000,
        0 < old(player).ac_beat.frequency.bits < 0x8000_0000_0000_0000
            || old(player).ac_beat.frequency.bits > 0xfff0_0000_0000_0000,
        beats == bpm * old(player).beat_value,
        0 <= length <= isize::MAX,
        beats > 0 ==> 2 * (length * beats - 240 * sample_rate) <= beats,
        beats > 0 && length < isize::MAX ==> 2 * (length * beats - 240 * sample_rate) > -beats,
        beats == 0 ==> length == (if sample_rate > 0 {
            isize::MAX as int
        } else {
            0
        }),
    ensures
        exists|beat: Vec<T>, ac_beat: Vec<T>|
            {
                &&& #[trigger] call_ensures(*synth, (&old(player).beat,), beat)
                &&& #[trigger] call_ensures(*synth, (&old(player).ac_beat,), ac_beat)
                &&& match res {
                    TempoChange::Settled => false,
                    TempoChange::Refused => beat@.len() > length || ac_beat@.len() > length,
                    TempoChange::HandOver(buffer) => beat@.len() <= length && ac_beat@.len()
                        <= length && (
                    exists|mono: AudioSignal<T>|
                        {
                            &&& #[trigger] mono.signal@.len() == old(player).pattern.0@.len()
                                * length
                            &&& forall|i: int|
                                0 <= i < mono.signal@.len() ==> #[trigger] mono.signal@[i] == (
                                match old(player).pattern.0@[i / length] {
                                    BeatPatternType::Accent => if i % length < ac_beat@.len() {
                                        ac_beat@[i % length]
                                    } else {
                                        silence
                                    },
                                    BeatPatternType::Beat => if i % length < beat@.len() {
                                        beat@[i % length]
                                    } else {
                                        silence
                                    },
                                    BeatPatternType::Pause => silence,
                                })
                            &&& mono.index == 0
                            &&& mono.tone.frequency.bits == 0
                            &&& mono.tone.sample_rate == sample_rate
                            &&& mono.tone.samples == old(player).pattern.0@.len() * length
                            &&& mono.tone.overtones == 0
                            &&& mono.tone.channels == 1
                            &&& channels <= 1 ==> buffer == mono
                            &&& channels > 1 ==> call_ensures(*expand, (mono, channels), buffer)
                        }),
                }
            },
{
    let filled: Result<AudioSignal<T>, &'static str> = choose|
        filled: Result<AudioSignal<T>, &'static str>,
    |
        {
            &&& #[trigger] old(player).at_tempo(bpm).fills(
                old(player).bar_config().0,
                old(player).bar_config().1,
                *synth,
                *expand,
                silence,
                filled,
            )
            &&& match filled {
                Ok(buffer) => res == TempoChange::HandOver(buffer),
                Err(_) => res is Refused,
            }
        };
    lemma_filled(
        old(player).at_tempo(bpm),
        sample_rate,
        channels,
        synth,
        expand,
        silence,
        filled,
        beats,
        length,
    );
}

/// The bar of one channel that a running stream is handed holds as many samples as its
/// beats together, and each beat takes up the whole number of samples that is nearest to
/// the part of four minutes that the new tempo and the beat value leave to it.
pub proof fn law_handed_over_bar_plays_the_tempo<
    S,
    W,
    L,
    T: Copy,
    G: Fn(&ToneConfiguration) -> Vec<T>,
    E: Fn(AudioSignal<T>, usize) -> AudioSignal<T>,
>(
    player: &mut BeatPlayer<S, W, L>,
    bpm: u16,
    synth: &G,
    expand: &E,
    silence: T,
    buffer: AudioSignal<T>,
    sample_rate: u32,
    channels: usize,
)
    requires
        call_ensures(
            BeatPlayer::<S, W, L>::set_bpm::<T, G, E>,
            (player, bpm, synth, expand, silence),
            TempoChange::HandOver(buffer),
        ),
        old(player).connection@.stream_config == Some((sample_rate, channels)),
        channels <= 1,
        bpm * old(player).beat_value > 0,
        old(player).pattern.0@.len() > 0,
    ensures
        ({
            let beats = bpm * old(player).beat_value;
            let length = buffer.signal@.len() as int / old(player).pattern.0@.len() as int;
            &&& buffer.signal@.len() == old(player).pattern.0@.len() * length
            &&& 2 * (length * beats - 240 * sample_rate) <= beats
            &&& length < isize::MAX ==> 2 * (length * beats - 240 * sample_rate) > -beats
        }),
{
    let beat_value = old(player).beat_value;
    let pattern = old(player).pattern;
    let length = beat_samples(bpm as nat, beat_value as nat, sample_rate as nat);
    lemma_beat_samples(bpm as nat, beat_value as nat, sample_rate as nat);
    lemma_mul_is_commutative(pattern.0@.len() as int, length as int);
    lemma_div_by_multiple(length as int, pattern.0@.len() as int);
    assert(bpm > 0) by {
        if bpm == 0 {
            lemma_mul_basics(beat_value as int);
        }
    }
}

/// Playback is not prepared while the host is busy, has no device or has no configuration
/// for it, and what is said of that names the host or the reason. Nothing changes then.
pub proof fn law_missing_device_is_reported<
    S,
    W,
    L: Clone,
    T: Copy,
    G: Fn(&ToneConfiguration) -> Vec<T>,
    E: Fn(AudioSignal<T>, usize) -> AudioSignal<T>,
>(
    player: &mut BeatPlayer<S, W, L>,
    report: DeviceReport,
    synth: &G,
    expand: &E,
    silence: T,
    res: Result<StreamOrder<T, L>, String>,
)
    requires
        call_ensures(
            BeatPlayer::<S, W, L>::play_beat::<T, G, E>,
            (player, report, synth, expand, silence),
            res,
        ),
    ensures
        report is Busy ==> (res matches Err(told) && told@
            == "Cannot start beat playback, it is already running"@),
        report matches DeviceReport::NoDevice(host) ==> (res matches Err(told) && told@
            == "No audio device for "@ + host@),
        report matches DeviceReport::NoConfig(reason) ==> (res matches Err(told) && told@
            == "No output configuration on default output device: "@ + reason@),
        res is Err ==> final(player).connection@ == old(player).connection@,
        final(player).bpm == old(player).bpm,
        final(player).beat_value == old(player).beat_value,
        final(player).beat == old(player).beat,
        final(player).ac_beat == old(player).ac_beat,
        final(player).pattern == old(player).pattern,
{
}

/// A stream is ordered with the number of beats in the pattern and a copy of the listener,
/// and the configuration of the device is remembered. Nothing else changes.
pub proof fn law_order_fits_the_player<
    S,
    W,
    L: Clone,
    T: Copy,
    G: Fn(&ToneConfiguration) -> Vec<T>,
    E: Fn(AudioSignal<T>, usize) -> AudioSignal<T>,
>(
    player: &mut BeatPlayer<S, W, L>,
    sample_rate: u32,
    channels: u16,
    synth: &G,
    expand: &E,
    silence: T,
    order: StreamOrder<T, L>,
)
    requires
        call_ensures(
            BeatPlayer::<S, W, L>::play_beat::<T, G, E>,
            (player, DeviceReport::Ready { sample_rate, channels }, synth, expand, silence),
            Ok(order),
        ),
    ensures
        order.beats == old(player).pattern.0@.len(),
        old(player).connection@.on_beat is Some <==> order.on_beat is Some,
        order.on_beat is Some ==> cloned(old(player).connection@.on_beat->0, order.on_beat->0),
        final(player).connection@.stream_config == Some((sample_rate, channels as usize)),
        final(player).connection@.stream == old(player).connection@.stream,
        final(player).connection@.swap_buffer == old(player).connection@.swap_buffer,
        final(player).connection@.on_beat == old(player).connection@.on_beat,
{
}

/// A stream is not ordered if a tone has no frequency to play.
pub proof fn law_nothing_is_ordered_without_a_frequency<
    S,
    W,
    L: Clone,
    T: Copy,
    G: Fn(&ToneConfiguration) -> Vec<T>,
    E: Fn(AudioSignal<T>, usize) -> AudioSignal<T>,
>(
    player: &mut BeatPlayer<S, W, L>,
    sample_rate: u32,
    channels: u16,
    synth: &G,
    expand: &E,
    silence: T,
    res: Result<StreamOrder<T, L>, String>,
)
    requires
        call_ensures(
            BeatPlayer::<S, W, L>::play_beat::<T, G, E>,
            (player, DeviceReport::Ready { sample_rate, channels }, synth, expand, silence),
            res,
        ),
        ({
            let beat = old(player).beat.frequency.bits;
            let accent = old(player).ac_beat.frequency.bits;
            ||| beat == 0
            ||| 0x8000_0000_0000_0000 <= beat <= 0xfff0_0000_0000_0000
            ||| accent == 0
            ||| 0x8000_0000_0000_0000 <= accent <= 0xfff0_0000_0000_0000
        }),
    ensures
        res matches Err(told) && told@ == "Tone Configuration not applicable"@,
{
    lemma_applicable_by_bits(old(player).beat.frequency);
    lemma_applicable_by_bits(old(player).ac_beat.frequency);
}

/// A stream is ordered for a device that is ready unless a tone outlasts its beat, and it
/// starts with the bar of the player's settings at the sample rate of the device.
pub proof fn law_order_holds_the_bar<
    S,
    W,
    L: Clone,
    T: Copy,
    G: Fn(&ToneConfiguration) -> Vec<T>,
    E: Fn(AudioSignal<T>, usize) -> AudioSignal<T>,
>(
    player: &mut BeatPlayer<S, W, L>,
    sample_rate: u32,
    channels: u16,
    synth: &G,
    expand: &E,
    silence: T,
    res: Result<StreamOrder<T, L>, String>,
    beats: int,
    length: int,
)
    requires
        call_ensures(
            BeatPlayer::<S, W, L>::play_beat::<T, G, E>,
            (player, DeviceReport::Ready { sample_rate, channels }, synth, expand, silence),
            res,
        ),
        0 < old(player).beat.frequency.bits < 0x8000_0000_0000_0000
            || old(player).beat.frequency.bits > 0xfff0_0000_0000_0000,
        0 < old(player).ac_beat.frequency.bits < 0x8000_0000_0000_0000
            || old(player).ac_beat.frequency.bits > 0xfff0_0000_0000_0000,
        beats == old(player).bpm * old(player).beat_value,
        0 <= length <= isize::MAX,
        beats > 0 ==> 2 * (length * beats - 240 * sample_rate) <= beats,
        beats > 0 && length < isize::MAX ==> 2 * (length * beats - 240 * sample_rate) > -beats,
        beats == 0 ==> length == (if sample_rate > 0 {
            isize::MAX as int
        } else {
            0
        }),
    ensures
        exists|beat: Vec<T>, ac_beat: Vec<T>|
            {
                &&& #[trigger] call_ensures(*synth, (&old(player).beat,), beat)
                &&& #[trigger] call_ensures(*synth, (&old(player).ac_beat,), ac_beat)
                &&& match res {
                    Err(told) => {
                        ||| beat@.len() > length && told@ == "Beat to long to play at current bpm"@
                        ||| beat@.len() <= length && ac_beat@.len() > length && told@
                            == "Accentuated beat to long to play at current bpm"@
                    },
                    Ok(StreamOrder { buffer, .. }) => beat@.len() <= length && ac_beat@.len()
                        <= length && (
                    exists|mono: AudioSignal<T>|
                        {
                            &&& #[trigger] mono.signal@.len() == old(player).pattern.0@.len()
                                * length
                            &&& forall|i: int|
                                0 <= i < mono.signal@.len() ==> #[trigger] mono.signal@[i] == (
                                match old(player).pattern.0@[i / length] {
                                    BeatPatternType::Accent => if i % length < ac_beat@.len() {
                                        ac_beat@[i % length]
                                    } else {
                                        silence
                                    },
                                    BeatPatternType::Beat => if i % length < beat@.len() {
                                        beat@[i % length]
                                    } else {
                                        silence
                                    },
                                    BeatPatternType::Pause => silence,
                                })
                            &&& mono.index == 0
                            &&& mono.tone.frequency.bits == 0
                            &&& mono.tone.sample_rate == sample_rate
                            &&& mono.tone.samples == old(player).pattern.0@.len() * length
                            &&& mono.tone.overtones == 0
                            &&& mono.tone.channels == 1
                            &&& channels <= 1 ==> buffer == mono
                            &&& channels > 1 ==> call_ensures(
                                *expand,
                                (mono, channels as usize),
                                buffer,
                            )
                        }),
                }
            },
{
    let filled: Result<AudioSignal<T>, &'static str> = choose|
        filled: Result<AudioSignal<T>, &'static str>,
    |
        {
            &&& #[trigger] old(player).fills(
                sample_rate,
                channels as usize,
                *synth,
                *expand,
                silence,
                filled,
            )
            &&& match filled {
                Ok(buffer) => res matches Ok(order) && order.buffer == buffer,
                Err(message) => res matches Err(told) && told@ == message@,
            }
        };
    lemma_filled(
        *old(player),
        sample_rate,
        channels as usize,
        synth,
        expand,
        silence,
        filled,
        beats,
        length,
    );
}

/// The bar of one channel that a stream is ordered with holds as many samples as its beats
/// together, and each beat takes up the whole number of samples that is nearest to the part
/// of four minutes that the player's tempo and beat value leave to it.
pub proof fn law_ordered_bar_plays_the_tempo<
    S,
    W,
    L: Clone,
    T: Copy,
    G: Fn(&ToneConfiguration) -> Vec<T>,
    E: Fn(AudioSignal<T>, usize) -> AudioSignal<T>,
>(
    player: &mut BeatPlayer<S, W, L>,
    sample_rate: u32,
    channels: u16,
    synth: &G,
    expand: &E,
    silence: T,
    order: StreamOrder<T, L>,
)
    requires
        call_ensures(
            BeatPlayer::<S, W, L>::play_beat::<T, G, E>,
            (player, DeviceReport::Ready { sample_rate, channels }, synth, expand, silence),
            Ok(order),
        ),
        channels <= 1,
        old(player).bpm * old(player).beat_value > 0,
        old(player).pattern.0@.len() > 0,
    ensures
        ({
            let beats = old(player).bpm * old(player).beat_value;
            let length = order.buffer.signal@.len() as int / order.beats as int;
            &&& order.buffer.signal@.len() == order.beats * length
            &&& 2 * (length * beats - 240 * sample_rate) <= beats
            &&& length < isize::MAX ==> 2 * (length * beats - 240 * sample_rate) > -beats
        }),
{
    let bpm = old(player).bpm;
    let beat_value = old(player).beat_value;
    let pattern = old(player).pattern;
    let length = beat_samples(bpm as nat, beat_value as nat, sample_rate as nat);
    lemma_beat_samples(bpm as nat, beat_value as nat, sample_rate as nat);
    lemma_mul_is_commutative(pattern.0@.len() as int, length as int);
    lemma_div_by_multiple(length as int, pattern.0@.len() as int);
}

/// A bar can be filled, ordered and handed over at another tempo whenever the tones can be
/// made, bars can be laid out, and a vector can hold the bar.
pub proof fn law_bars_can_be_built<
    S,
    W,
    L: Clone,
    T: Copy,
    G: Fn(&ToneConfiguration) -> Vec<T>,
    E: Fn(AudioSignal<T>, usize) -> AudioSignal<T>,
>(
    player: &mut BeatPlayer<S, W, L>,
    filling: &BeatPlayer<S, W, L>,
    sample_rate: u32,
    channels: u16,
    bpm: u16,
    synth: &G,
    expand: &E,
    silence: T,
    beats: int,
    length: int,
)
    requires
        forall|tone: &ToneConfiguration| #[trigger] call_requires(*synth, (tone,)),
        forall|mono: AudioSignal<T>, count: usize| #[trigger]
            call_requires(*expand, (mono, count)),
        beats == bpm * old(player).beat_value,
        0 <= length <= isize::MAX,
        beats > 0 ==> 2 * (length * beats - 240 * sample_rate) <= beats,
        beats > 0 && length < isize::MAX ==> 2 * (length * beats - 240 * sample_rate) > -beats,
        beats == 0 ==> length == (if sample_rate > 0 {
            isize::MAX as int
        } else {
            0
        }),
        old(player).pattern.0@.len() * length <= usize::MAX,
        (old(player).pattern.0@.len() * length) * vstd::layout::size_of::<T>() <= isize::MAX,
    ensures
        *filling == *old(player) && filling.bpm == bpm ==> call_requires(
            BeatPlayer::<S, W, L>::_fill_playback_buffer::<T, G, E>,
            (filling, sample_rate, channels as usize, synth, expand, silence),
        ),
        old(player).bpm == bpm ==> call_requires(
            BeatPlayer::<S, W, L>::play_beat::<T, G, E>,
            (player, DeviceReport::Ready { sample_rate, channels }, synth, expand, silence),
        ),
        old(player).connection@.stream_config == Some((sample_rate, channels as usize))
            ==> call_requires(
            BeatPlayer::<S, W, L>::set_bpm::<T, G, E>,
            (player, bpm, synth, expand, silence),
        ),
{
    lemma_beat_samples(bpm as nat, old(player).beat_value as nat, sample_rate as nat);
    if beats > 0 {
        lemma_nearest_is_unique(
            length,
            beat_samples(bpm as nat, old(player).beat_value as nat, sample_rate as nat) as int,
            beats,
            240 * sample_rate,
        );
    }
}

/// Where no bar is to be built, nothing is asked of how tones are made and laid out: at a
/// tempo of zero, without a running stream that takes bars, and without a device that is
/// ready.
pub proof fn law_nothing_is_asked_where_no_bar_is_built<
    S,
    W,
    L: Clone,
    T: Copy,
    G: Fn(&ToneConfiguration) -> Vec<T>,
    E: Fn(AudioSignal<T>, usize) -> AudioSignal<T>,
>(
    player: &mut BeatPlayer<S, W, L>,
    bpm: u16,
    report: DeviceReport,
    synth: &G,
    expand: &E,
    silence: T,
)
    ensures
        bpm == 0 || old(player).connection@.swap_buffer is None || old(
            player,
        ).connection@.stream_config is None ==> call_requires(
            BeatPlayer::<S, W, L>::set_bpm::<T, G, E>,
            (player, bpm, synth, expand, silence),
        ),
        report is Busy || report is NoDevice || report is NoConfig ==> call_requires(
            BeatPlayer::<S, W, L>::play_beat::<T, G, E>,
            (player, report, synth, expand, silence),
        ),
{
}

} // verus!
