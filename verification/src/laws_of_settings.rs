//! What holds of the settings of a player and of its stream.
//!
//! Each law speaks of what a call comes back with, and of the fields of the player.

use crate::double::{lemma_pitch_by_bits, Double};
use crate::pattern::BeatPattern;
use crate::player::{BeatPlayer, Change, DeviceReport, PitchOutOfRange, StreamOrder, TempoChange};
use crate::signal::{AudioSignal, ToneConfiguration};
use crate::text::{decimal_text, right_align};
use vstd::prelude::*;

verus! {

/// A new player has the settings that it is made with, and is not playing.
pub proof fn law_new_player_has_its_settings<S, W, L>(
    bpm: u16,
    beat_value: u16,
    beat: ToneConfiguration,
    ac_beat: ToneConfiguration,
    pattern: BeatPattern,
    player: BeatPlayer<S, W, L>,
)
    requires
        call_ensures(BeatPlayer::<S, W, L>::new, (bpm, beat_value, beat, ac_beat, pattern), player),
    ensures
        player.bpm == bpm,
        player.beat_value == beat_value,
        player.beat == beat,
        player.ac_beat == ac_beat,
        player.pattern == pattern,
        player.connection@.stream is None,
        player.connection@.swap_buffer is None,
        player.connection@.stream_config is None,
        player.connection@.on_beat is None,
{
}

/// A beat value above zero is the player's from then on, whether it was playing or not, and
/// the other settings stay. Zero is refused and changes nothing.
pub proof fn law_beat_value_is_set<S, W, L>(
    player: &mut BeatPlayer<S, W, L>,
    beat_value: u16,
    res: Option<Change<S, u16>>,
)
    requires
        call_ensures(BeatPlayer::<S, W, L>::set_beat_value, (player, beat_value), res),
    ensures
        res is None <==> beat_value == 0,
        beat_value > 0 ==> final(player).beat_value == beat_value,
        beat_value == 0 ==> *final(player) == *old(player),
        final(player).bpm == old(player).bpm,
        final(player).beat == old(player).beat,
        final(player).ac_beat == old(player).ac_beat,
        final(player).pattern == old(player).pattern,
{
}

/// Setting the beat value stops a running stream and hands it back along with the previous
/// value. If nothing is playing the change just settles. The listener stays.
pub proof fn law_beat_value_stops_the_stream<S, W, L>(
    player: &mut BeatPlayer<S, W, L>,
    beat_value: u16,
    change: Change<S, u16>,
)
    requires
        call_ensures(BeatPlayer::<S, W, L>::set_beat_value, (player, beat_value), Some(change)),
    ensures
        change is Settled <==> old(player).connection@.stream is None,
        change matches Change::Restart { stream, fallback } ==> old(player).connection@.stream
            == Some(stream) && fallback == old(player).beat_value,
        old(player).connection@.stream is Some ==> final(player).connection@.stream is None,
        old(player).connection@.stream is Some ==> final(player).connection@.swap_buffer is None,
        old(player).connection@.stream is Some ==> final(player).connection@.stream_config is None,
        old(player).connection@.stream is None ==> final(player).connection@ == old(
            player,
        ).connection@,
        final(player).connection@.on_beat == old(player).connection@.on_beat,
{
}

/// A beat value that was set while the player was playing is kept if playback has resumed,
/// and otherwise the player has the previous one again.
pub proof fn law_beat_value_stays_if_playback_resumes<S, W, L>(
    player: &mut BeatPlayer<S, W, L>,
    beat_value: u16,
    stream: S,
    fallback: u16,
    resumed: &mut BeatPlayer<S, W, L>,
    played: bool,
    res: bool,
)
    requires
        call_ensures(
            BeatPlayer::<S, W, L>::set_beat_value,
            (player, beat_value),
            Some(Change::Restart { stream, fallback }),
        ),
        old(resumed).beat_value == final(player).beat_value,
        call_ensures(BeatPlayer::<S, W, L>::beat_value_resumed, (resumed, fallback, played), res),
    ensures
        res == played,
        played ==> final(resumed).beat_value == beat_value,
        !played ==> final(resumed).beat_value == old(player).beat_value,
{
}

/// Ending a change of the beat value touches nothing else.
pub proof fn law_beat_value_ends_alone<S, W, L>(
    player: &mut BeatPlayer<S, W, L>,
    fallback: u16,
    played: bool,
    res: bool,
)
    requires
        call_ensures(BeatPlayer::<S, W, L>::beat_value_resumed, (player, fallback, played), res),
    ensures
        res == played,
        played ==> final(player).beat_value == old(player).beat_value,
        !played ==> final(player).beat_value == fallback,
        final(player).bpm == old(player).bpm,
        final(player).beat == old(player).beat,
        final(player).ac_beat == old(player).ac_beat,
        final(player).pattern == old(player).pattern,
        final(player).connection@ == old(player).connection@,
{
}

/// A pattern with beats is the player's from then on, beat by beat, whether it was playing
/// or not, and the other settings stay. One without beats is refused and changes nothing.
pub proof fn law_pattern_is_set<S, W, L>(
    player: &mut BeatPlayer<S, W, L>,
    pattern: &BeatPattern,
    res: Result<Change<S, BeatPattern>, String>,
)
    requires
        call_ensures(BeatPlayer::<S, W, L>::set_pattern, (player, pattern), res),
    ensures
        res is Err <==> pattern.0@.len() == 0,
        pattern.0@.len() > 0 ==> final(player).pattern.0@ == pattern.0@,
        pattern.0@.len() == 0 ==> *final(player) == *old(player),
        res matches Err(message) ==> message@
            == "Beat pattern is empty, will not change anything"@,
        final(player).bpm == old(player).bpm,
        final(player).beat_value == old(player).beat_value,
        final(player).beat == old(player).beat,
        final(player).ac_beat == old(player).ac_beat,
{
}

/// Setting the pattern stops a running stream and hands it back along with the previous
/// pattern. If nothing is playing the change just settles. The listener stays.
pub proof fn law_pattern_stops_the_stream<S, W, L>(
    player: &mut BeatPlayer<S, W, L>,
    pattern: &BeatPattern,
    change: Change<S, BeatPattern>,
)
    requires
        call_ensures(BeatPlayer::<S, W, L>::set_pattern, (player, pattern), Ok(change)),
    ensures
        change is Settled <==> old(player).connection@.stream is None,
        change matches Change::Restart { stream, fallback } ==> old(player).connection@.stream
            == Some(stream) && fallback.0@ == old(player).pattern.0@,
        old(player).connection@.stream is Some ==> final(player).connection@.stream is None,
        old(player).connection@.stream is Some ==> final(player).connection@.swap_buffer is None,
        old(player).connection@.stream is Some ==> final(player).connection@.stream_config is None,
        old(player).connection@.stream is None ==> final(player).connection@ == old(
            player,
        ).connection@,
        final(player).connection@.on_beat == old(player).connection@.on_beat,
{
}

/// A pattern that was set while the player was playing is kept if playback has resumed, and
/// otherwise the player has the previous one again.
pub proof fn law_pattern_stays_if_playback_resumes<S, W, L>(
    player: &mut BeatPlayer<S, W, L>,
    pattern: &BeatPattern,
    stream: S,
    fallback: BeatPattern,
    resumed: &mut BeatPlayer<S, W, L>,
    played: bool,
    res: Result<(), String>,
)
    requires
        call_ensures(
            BeatPlayer::<S, W, L>::set_pattern,
            (player, pattern),
            Ok(Change::Restart { stream, fallback }),
        ),
        old(resumed).pattern == final(player).pattern,
        call_ensures(BeatPlayer::<S, W, L>::pattern_resumed, (resumed, fallback, played), res),
    ensures
        res is Ok <==> played,
        played ==> final(resumed).pattern.0@ == pattern.0@,
        !played ==> final(resumed).pattern.0@ == old(player).pattern.0@,
        res matches Err(message) ==> message@
            == "New pattern does not seem to work, returning to previous pattern"@,
{
}

/// Ending a change of the pattern touches nothing else.
pub proof fn law_pattern_ends_alone<S, W, L>(
    player: &mut BeatPlayer<S, W, L>,
    fallback: BeatPattern,
    played: bool,
    res: Result<(), String>,
)
    requires
        call_ensures(BeatPlayer::<S, W, L>::pattern_resumed, (player, fallback, played), res),
    ensures
        res is Ok <==> played,
        res matches Err(message) ==> message@
            == "New pattern does not seem to work, returning to previous pattern"@,
        played ==> final(player).pattern == old(player).pattern,
        !played ==> final(player).pattern == fallback,
        final(player).bpm == old(player).bpm,
        final(player).beat_value == old(player).beat_value,
        final(player).beat == old(player).beat,
        final(player).ac_beat == old(player).ac_beat,
        final(player).connection@ == old(player).connection@,
{
}

/// Pitches from 20 to 20000 Hertz are set, the first for accentuated and the second for
/// normal beats. If one is not in that range nothing changes, and the accentuated one is
/// named if it is not, the normal one otherwise.
pub proof fn law_pitches_are_set<S, W, L>(
    player: &mut BeatPlayer<S, W, L>,
    accent_pitch: Double,
    normal_pitch: Double,
    res: Result<Change<S, ()>, PitchOutOfRange>,
)
    requires
        call_ensures(BeatPlayer::<S, W, L>::set_pitches, (player, accent_pitch, normal_pitch), res),
    ensures
        res is Ok <==> 0x4034_0000_0000_0000 <= accent_pitch.bits <= 0x40d3_8800_0000_0000
            && 0x4034_0000_0000_0000 <= normal_pitch.bits <= 0x40d3_8800_0000_0000,
        res is Ok ==> final(player).ac_beat.frequency == accent_pitch,
        res is Ok ==> final(player).beat.frequency == normal_pitch,
        res matches Err(error) ==> error.value == (if 0x4034_0000_0000_0000 <= accent_pitch.bits
            <= 0x40d3_8800_0000_0000 {
            normal_pitch
        } else {
            accent_pitch
        }),
        res is Err ==> *final(player) == *old(player),
        final(player).bpm == old(player).bpm,
        final(player).beat_value == old(player).beat_value,
        final(player).pattern == old(player).pattern,
        final(player).beat.sample_rate == old(player).beat.sample_rate,
        final(player).beat.length == old(player).beat.length,
        final(player).beat.overtones == old(player).beat.overtones,
        final(player).beat.channels == old(player).beat.channels,
        final(player).ac_beat.sample_rate == old(player).ac_beat.sample_rate,
        final(player).ac_beat.length == old(player).ac_beat.length,
        final(player).ac_beat.overtones == old(player).ac_beat.overtones,
        final(player).ac_beat.channels == old(player).ac_beat.channels,
{
    lemma_pitch_by_bits(accent_pitch);
    lemma_pitch_by_bits(normal_pitch);
}

/// Setting the pitches stops a running stream and hands it back. If nothing is playing the
/// change just settles. The listener stays.
pub proof fn law_pitches_stop_the_stream<S, W, L>(
    player: &mut BeatPlayer<S, W, L>,
    accent_pitch: Double,
    normal_pitch: Double,
    change: Change<S, ()>,
)
    requires
        call_ensures(
            BeatPlayer::<S, W, L>::set_pitches,
            (player, accent_pitch, normal_pitch),
            Ok(change),
        ),
    ensures
        change is Settled <==> old(player).connection@.stream is None,
        change matches Change::Restart { stream, .. } ==> old(player).connection@.stream == Some(
            stream,
        ),
        old(player).connection@.stream is Some ==> final(player).connection@.stream is None,
        old(player).connection@.stream is Some ==> final(player).connection@.swap_buffer is None,
        old(player).connection@.stream is Some ==> final(player).connection@.stream_config is None,
        old(player).connection@.stream is None ==> final(player).connection@ == old(
            player,
        ).connection@,
        final(player).connection@.on_beat == old(player).connection@.on_beat,
{
}

/// What is said of a pitch that cannot be set holds its value.
pub proof fn law_pitch_is_named(error: &PitchOutOfRange, value: &str, res: String)
    requires
        call_ensures(PitchOutOfRange::message, (error, value), res),
    ensures
        res@ == "Value "@ + value@ + " out of range"@,
{
}

/// Stopping takes the stream away and hands it back. The settings and the listener stay.
pub proof fn law_stop_takes_the_stream<S, W, L>(
    player: &mut BeatPlayer<S, W, L>,
    res: Option<S>,
)
    requires
        call_ensures(BeatPlayer::<S, W, L>::stop, (player,), res),
    ensures
        res == old(player).connection@.stream,
        final(player).connection@.stream is None,
        final(player).connection@.swap_buffer is None,
        final(player).connection@.stream_config is None,
        final(player).connection@.on_beat == old(player).connection@.on_beat,
        final(player).bpm == old(player).bpm,
        final(player).beat_value == old(player).beat_value,
        final(player).beat == old(player).beat,
        final(player).ac_beat == old(player).ac_beat,
        final(player).pattern == old(player).pattern,
{
}

/// A listener that is set is the one that is told of beats from then on. Nothing else
/// changes.
pub proof fn law_listener_is_set<S, W, L>(player: &mut BeatPlayer<S, W, L>, listener: L)
    requires
        call_ensures(BeatPlayer::<S, W, L>::set_on_beat, (player, listener), ()),
    ensures
        final(player).connection@.on_beat == Some(listener),
        final(player).bpm == old(player).bpm,
        final(player).beat_value == old(player).beat_value,
        final(player).beat == old(player).beat,
        final(player).ac_beat == old(player).ac_beat,
        final(player).pattern == old(player).pattern,
        final(player).connection@.stream == old(player).connection@.stream,
        final(player).connection@.swap_buffer == old(player).connection@.swap_buffer,
        final(player).connection@.stream_config == old(player).connection@.stream_config,
{
}

/// A stream that was opened is the running one, and its hand-over takes the new bars. One
/// that was not leaves everything as it was, for the reason that was given.
pub proof fn law_opened_stream_is_taken_over<S, W, L>(
    player: &mut BeatPlayer<S, W, L>,
    opened: Result<(S, W), String>,
    res: Result<(), String>,
)
    requires
        call_ensures(BeatPlayer::<S, W, L>::stream_opened, (player, opened), res),
    ensures
        res is Ok <==> opened is Ok,
        opened matches Ok((stream, swap)) ==> final(player).connection@.stream == Some(stream)
            && final(player).connection@.swap_buffer == Some(swap),
        opened matches Err(reason) ==> (res matches Err(told) && told@ == reason@)
            && final(player).connection@ == old(player).connection@,
        final(player).connection@.stream_config == old(player).connection@.stream_config,
        final(player).connection@.on_beat == old(player).connection@.on_beat,
        final(player).bpm == old(player).bpm,
        final(player).beat_value == old(player).beat_value,
        final(player).beat == old(player).beat,
        final(player).ac_beat == old(player).ac_beat,
        final(player).pattern == old(player).pattern,
{
}

/// A stream that has started stays. One that has not is let go of, and nothing is playing
/// then.
pub proof fn law_stream_stays_if_it_has_started<S, W, L>(
    player: &mut BeatPlayer<S, W, L>,
    started: bool,
    res: Result<(), String>,
)
    requires
        call_ensures(BeatPlayer::<S, W, L>::stream_started, (player, started), res),
    ensures
        res is Ok <==> started,
        res matches Err(message) ==> message@ == "Something went wrong with beat playback"@,
        started ==> final(player).connection@ == old(player).connection@,
        !started ==> final(player).connection@.stream is None,
        !started ==> final(player).connection@.swap_buffer is None,
        !started ==> final(player).connection@.stream_config is None,
        final(player).connection@.on_beat == old(player).connection@.on_beat,
        final(player).bpm == old(player).bpm,
        final(player).beat_value == old(player).beat_value,
        final(player).beat == old(player).beat,
        final(player).ac_beat == old(player).ac_beat,
        final(player).pattern == old(player).pattern,
{
}

/// What a player tells of its stream is what it holds.
pub proof fn law_player_tells_of_its_stream<S, W, L>(
    player: &BeatPlayer<S, W, L>,
    playing: bool,
    stream: Option<&S>,
    swap: Option<&W>,
    config: Option<(u32, usize)>,
)
    requires
        call_ensures(BeatPlayer::<S, W, L>::is_playing, (player,), playing),
        call_ensures(BeatPlayer::<S, W, L>::stream, (player,), stream),
        call_ensures(BeatPlayer::<S, W, L>::swap_buffer, (player,), swap),
        call_ensures(BeatPlayer::<S, W, L>::stream_config, (player,), config),
    ensures
        playing <==> player.connection@.stream is Some,
        stream is Some <==> player.connection@.stream is Some,
        stream is Some ==> *stream->0 == player.connection@.stream->0,
        swap is Some <==> player.connection@.swap_buffer is Some,
        swap is Some ==> *swap->0 == player.connection@.swap_buffer->0,
        config == player.connection@.stream_config,
{
}

/// A player that ordered a stream and was given it is playing, tells that stream, its
/// hand-over and the configuration of the device, and hands the stream back when stopped,
/// after which it is not playing.
pub proof fn law_stream_is_held_until_it_is_stopped<
    S,
    W,
    L: Clone,
    T: Copy,
    G: Fn(&ToneConfiguration) -> Vec<T>,
    E: Fn(AudioSignal<T>, usize) -> AudioSignal<T>,
>(
    ordering: &mut BeatPlayer<S, W, L>,
    sample_rate: u32,
    channels: u16,
    synth: &G,
    expand: &E,
    silence: T,
    order: StreamOrder<T, L>,
    opening: &mut BeatPlayer<S, W, L>,
    opened_stream: S,
    opened_swap: W,
    starting: &mut BeatPlayer<S, W, L>,
    running: &BeatPlayer<S, W, L>,
    playing: bool,
    stream: Option<&S>,
    swap: Option<&W>,
    config: Option<(u32, usize)>,
    stopping: &mut BeatPlayer<S, W, L>,
    res: Option<S>,
    stopped: &BeatPlayer<S, W, L>,
    playing_then: bool,
    stream_then: Option<&S>,
    swap_then: Option<&W>,
    config_then: Option<(u32, usize)>,
)
    requires
        call_ensures(
            BeatPlayer::<S, W, L>::play_beat::<T, G, E>,
            (ordering, DeviceReport::Ready { sample_rate, channels }, synth, expand, silence),
            Ok(order),
        ),
        *old(opening) == *final(ordering),
        call_ensures(
            BeatPlayer::<S, W, L>::stream_opened,
            (opening, Ok((opened_stream, opened_swap))),
            Ok(()),
        ),
        *old(starting) == *final(opening),
        call_ensures(BeatPlayer::<S, W, L>::stream_started, (starting, true), Ok(())),
        *running == *final(starting),
        call_ensures(BeatPlayer::<S, W, L>::is_playing, (running,), playing),
        call_ensures(BeatPlayer::<S, W, L>::stream, (running,), stream),
        call_ensures(BeatPlayer::<S, W, L>::swap_buffer, (running,), swap),
        call_ensures(BeatPlayer::<S, W, L>::stream_config, (running,), config),
        *old(stopping) == *running,
        call_ensures(BeatPlayer::<S, W, L>::stop, (stopping,), res),
        *stopped == *final(stopping),
        call_ensures(BeatPlayer::<S, W, L>::is_playing, (stopped,), playing_then),
        call_ensures(BeatPlayer::<S, W, L>::stream, (stopped,), stream_then),
        call_ensures(BeatPlayer::<S, W, L>::swap_buffer, (stopped,), swap_then),
        call_ensures(BeatPlayer::<S, W, L>::stream_config, (stopped,), config_then),
    ensures
        playing,
        stream is Some && *stream->0 == opened_stream,
        swap is Some && *swap->0 == opened_swap,
        config == Some((sample_rate, channels as usize)),
        res == Some(opened_stream),
        !playing_then,
        stream_then is None,
        swap_then is None,
        config_then is None,
{
}

/// A player that was given the stream that it ordered never just settles for another tempo
/// above zero, whatever number of channels the device has.
pub proof fn law_running_stream_is_handed_the_tempo<
    S,
    W,
    L: Clone,
    T: Copy,
    G: Fn(&ToneConfiguration) -> Vec<T>,
    E: Fn(AudioSignal<T>, usize) -> AudioSignal<T>,
>(
    ordering: &mut BeatPlayer<S, W, L>,
    sample_rate: u32,
    channels: u16,
    synth: &G,
    expand: &E,
    silence: T,
    order: StreamOrder<T, L>,
    opening: &mut BeatPlayer<S, W, L>,
    stream: S,
    swap: W,
    starting: &mut BeatPlayer<S, W, L>,
    player: &mut BeatPlayer<S, W, L>,
    bpm: u16,
    res: TempoChange<T>,
)
    requires
        call_ensures(
            BeatPlayer::<S, W, L>::play_beat::<T, G, E>,
            (ordering, DeviceReport::Ready { sample_rate, channels }, synth, expand, silence),
            Ok(order),
        ),
        *old(opening) == *final(ordering),
        call_ensures(BeatPlayer::<S, W, L>::stream_opened, (opening, Ok((stream, swap))), Ok(())),
        *old(starting) == *final(opening),
        call_ensures(BeatPlayer::<S, W, L>::stream_started, (starting, true), Ok(())),
        *old(player) == *final(starting),
        bpm > 0,
        call_ensures(
            BeatPlayer::<S, W, L>::set_bpm::<T, G, E>,
            (player, bpm, synth, expand, silence),
            res,
        ),
    ensures
        !(res is Settled),
        res is HandOver ==> final(player).bpm == bpm,
        res is Refused ==> final(player).bpm == old(player).bpm,
{
}

/// The listener that was set is the one that a stream is ordered with, a copy of it.
pub proof fn law_stream_is_ordered_with_the_listener<
    S,
    W,
    L: Clone,
    T: Copy,
    G: Fn(&ToneConfiguration) -> Vec<T>,
    E: Fn(AudioSignal<T>, usize) -> AudioSignal<T>,
>(
    setting: &mut BeatPlayer<S, W, L>,
    listener: L,
    ordering: &mut BeatPlayer<S, W, L>,
    sample_rate: u32,
    channels: u16,
    synth: &G,
    expand: &E,
    silence: T,
    order: StreamOrder<T, L>,
)
    requires
        call_ensures(BeatPlayer::<S, W, L>::set_on_beat, (setting, listener), ()),
        *old(ordering) == *final(setting),
        call_ensures(
            BeatPlayer::<S, W, L>::play_beat::<T, G, E>,
            (ordering, DeviceReport::Ready { sample_rate, channels }, synth, expand, silence),
            Ok(order),
        ),
    ensures
        order.on_beat is Some,
        cloned(listener, order.on_beat->0),
{
}

/// The status names the pattern, the beat value, the tempo and the two pitches, each the way
/// that it is written on its own.
pub proof fn law_status_names_the_settings<S, W, L>(
    player: &BeatPlayer<S, W, L>,
    accent: &str,
    normal: &str,
    res: String,
    pattern: String,
    beat_value: String,
    bpm: String,
)
    requires
        call_ensures(BeatPlayer::<S, W, L>::get_status, (player, accent, normal), res),
        call_ensures(BeatPattern::to_string, (&player.pattern,), pattern),
        call_ensures(decimal_text, (player.beat_value,), beat_value),
        call_ensures(decimal_text, (player.bpm,), bpm),
    ensures
        res@ == "pattern: "@ + pattern@ + "  value: 1/"@ + beat_value@ + " bpm: "@ + bpm@ + "  !: "@
            + accent@ + "Hz  +:"@ + normal@ + "Hz"@,
{
}

/// The text of a player names the tempo, four characters wide, the beat value, the pattern
/// beat by beat, the two pitches, and whether it is playing.
pub proof fn law_text_names_the_settings<S, W, L>(
    player: &BeatPlayer<S, W, L>,
    accent: &str,
    normal: &str,
    res: String,
    tempo: String,
    digits: &str,
    bpm: String,
    beat_value: String,
    pattern: String,
    playing: bool,
)
    requires
        call_ensures(BeatPlayer::<S, W, L>::to_string, (player, accent, normal), res),
        call_ensures(decimal_text, (player.bpm,), tempo),
        digits@ == tempo@,
        call_ensures(right_align, (digits, 4), bpm),
        call_ensures(decimal_text, (player.beat_value,), beat_value),
        call_ensures(BeatPattern::spell_out, (&player.pattern,), pattern),
        call_ensures(BeatPlayer::<S, W, L>::is_playing, (player,), playing),
    ensures
        res@ == "bpm: "@ + bpm@ + ", beat_value: 1/"@ + beat_value@ + ", pattern: "@ + pattern@
            + ", accent: "@ + accent@ + "Hz, normal: "@ + normal@ + "Hz, playing: "@ + (
        if playing {
            "true"@
        } else {
            "false"@
        }),
{
}

} // verus!
