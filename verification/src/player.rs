//! The player: its settings, and the stream through which it sounds.
//!
//! The player itself never touches the audio device. Where a step depends on the device,
//! the player says what is to be done and is told how it went.

use crate::bar::{assemble_bar, bar_fits, beat_samples, is_bar, samples_per_beat};
use crate::bar::{AC_BEAT_TOO_LONG, BEAT_TOO_LONG};
use crate::double::{applicable, is_applicable, is_settable_pitch, settable_pitch, Double};
use crate::pattern::{notation_of, spelled_out, BeatPattern, BeatPatternType};
use crate::signal::{AudioSignal, ToneConfiguration};
use crate::text::{decimal, decimal_text, right_align, right_aligned, truth};
use vstd::prelude::*;

verus! {

/// What is said of tones that have no frequency to play.
pub const NOT_APPLICABLE: &'static str = "Tone Configuration not applicable";

/// What is said of a pattern without beats.
pub const EMPTY_PATTERN: &'static str = "Beat pattern is empty, will not change anything";

/// What is said when playback does not resume with a new pattern.
pub const PATTERN_FAILED: &'static str =
    "New pattern does not seem to work, returning to previous pattern";

/// What is said when another start or stop is under way.
pub const BUSY: &'static str = "Cannot start beat playback, it is already running";

/// What is said of a host without a device, ahead of its name.
pub const NO_DEVICE: &'static str = "No audio device for ";

/// What is said of a device without a configuration, ahead of the reason.
pub const NO_CONFIG: &'static str = "No output configuration on default output device: ";

/// What is said when the stream does not start.
pub const NOT_STARTED: &'static str = "Something went wrong with beat playback";

/// What ties the player to the audio device: a stream handle `S`, the hand-over `W` of new
/// bars to the running stream, and the beat listener `L`.
pub struct Session<S, W, L> {
    pub stream: Option<S>,
    pub on_beat: Option<L>,
    pub swap_buffer: Option<W>,
    /// Sample rate and channel count of the running stream, needed to build a
    /// replacement bar that matches it.
    pub stream_config: Option<(u32, usize)>,
}

impl<S, W, L> Session<S, W, L> {
    /// A running stream takes new bars, and its configuration is known.
    pub open spec fn wf(self) -> bool {
        &&& self.stream is Some <==> self.swap_buffer is Some
        &&& self.stream is Some ==> self.stream_config is Some
    }

    /// The session once a stream has been ordered for a device.
    pub open spec fn ordered(self, sample_rate: u32, channels: usize) -> Self {
        Session { stream_config: Some((sample_rate, channels)), ..self }
    }

    /// The session once a stream has been opened.
    pub open spec fn opened(self, stream: S, swap: W) -> Self {
        Session { stream: Some(stream), swap_buffer: Some(swap), ..self }
    }

    /// The session once its stream has been taken away.
    pub open spec fn stopped(self) -> Self {
        Session { stream: None, swap_buffer: None, stream_config: None, on_beat: self.on_beat }
    }
}

/// The player's hold on its session.
pub struct Connection<S, W, L> {
    session: Session<S, W, L>,
}

impl<S, W, L> View for Connection<S, W, L> {
    type V = Session<S, W, L>;

    closed spec fn view(&self) -> Session<S, W, L> {
        self.session
    }
}

/// A metronome sound player that realizes the beat playback
pub struct BeatPlayer<S, W, L> {
    pub bpm: u16,
    pub beat_value: u16,
    pub beat: ToneConfiguration,
    pub ac_beat: ToneConfiguration,
    pub pattern: BeatPattern,
    pub connection: Connection<S, W, L>,
}

/// How a change of the settings goes on.
pub enum Change<S, P> {
    /// Nothing was playing, the change is made.
    Settled,
    /// The change is made and playback was stopped for it: `stream` is the one that was
    /// running. Playback is to be started again, and how that went is to be reported along
    /// with `fallback`, the value to put back should it have failed.
    Restart { stream: S, fallback: P },
}

/// A pitch that cannot be set.
#[derive(Debug, PartialEq, Eq, Structural, Clone, Copy)]
pub struct PitchOutOfRange {
    pub value: Double,
}

impl PitchOutOfRange {
    /// What is said of the pitch, whose value comes as text.
    pub fn message(&self, value: &str) -> (res: String)
        ensures
            res@ == "Value "@ + value@ + " out of range"@,
    {
        let mut res = String::new();
        res.append("Value ");
        res.append(value);
        res.append(" out of range");
        res
    }
}

/// How a change of the tempo goes on.
pub enum TempoChange<T> {
    /// The tempo stays as it was.
    Refused,
    /// Nothing was playing, the change is made.
    Settled,
    /// The change is made, and the running stream is to be handed this bar.
    HandOver(AudioSignal<T>),
}

/// What the audio host says of its default output device.
pub enum DeviceReport {
    /// Another start or stop is under way, the host was not asked.
    Busy,
    /// The host of this name has no device.
    NoDevice(String),
    /// The device has no configuration, for this reason.
    NoConfig(String),
    Ready { sample_rate: u32, channels: u16 },
}

/// What is said of a device that is not ready.
pub open spec fn device_missing(report: DeviceReport) -> Seq<char> {
    match report {
        DeviceReport::Busy => BUSY@,
        DeviceReport::NoDevice(host) => NO_DEVICE@ + host@,
        DeviceReport::NoConfig(error) => NO_CONFIG@ + error@,
        DeviceReport::Ready { .. } => Seq::empty(),
    }
}

/// What a stream is to be opened with.
pub struct StreamOrder<T, L> {
    pub buffer: AudioSignal<T>,
    pub beats: usize,
    pub on_beat: Option<L>,
}

impl<S, W, L> BeatPlayer<S, W, L> {
    /// What ties the player to the audio device.
    pub open spec fn session(self) -> Session<S, W, L> {
        self.connection@
    }

    /// Whether two players have the same tones.
    pub open spec fn same_tones(self, other: Self) -> bool {
        self.beat == other.beat && self.ac_beat == other.ac_beat
    }

    /// Whether two players have the same settings.
    pub open spec fn same_settings(self, other: Self) -> bool {
        &&& self.bpm == other.bpm
        &&& self.beat_value == other.beat_value
        &&& self.same_tones(other)
        &&& self.pattern == other.pattern
    }

    /// The player at another tempo.
    pub open spec fn at_tempo(self, bpm: u16) -> Self {
        BeatPlayer { bpm, ..self }
    }

    /// Whether both tones have a frequency to play.
    pub open spec fn tones_applicable(self) -> bool {
        is_applicable(self.beat.frequency) && is_applicable(self.ac_beat.frequency)
    }

    /// How many samples a beat takes up at a sample rate.
    pub open spec fn beat_length(self, sample_rate: u32) -> nat {
        beat_samples(self.bpm as nat, self.beat_value as nat, sample_rate as nat)
    }

    /// Whether a vector can hold the bar at a sample rate, if the tones that `synth` makes
    /// leave one to build.
    pub open spec fn bar_is_possible<T, G: Fn(&ToneConfiguration) -> Vec<T>>(
        self,
        sample_rate: u32,
        synth: G,
    ) -> bool {
        let length = self.beat_length(sample_rate);
        self.tones_applicable() ==> forall|beat: Vec<T>, ac_beat: Vec<T>| #[trigger]
            call_ensures(synth, (&self.beat,), beat) && #[trigger] call_ensures(
                synth,
                (&self.ac_beat,),
                ac_beat,
            ) && beat@.len() <= length && ac_beat@.len() <= length ==> bar_fits::<T>(
                self.pattern@.len() * length,
            )
    }

    /// Whether `synth` can make the player's tones, if they are to be made, and `expand` can
    /// lay out the bar that is built from them, if it takes several channels.
    pub open spec fn can_be_made<
        T,
        G: Fn(&ToneConfiguration) -> Vec<T>,
        E: Fn(AudioSignal<T>, usize) -> AudioSignal<T>,
    >(self, sample_rate: u32, channels: usize, synth: G, expand: E, silence: T) -> bool {
        self.tones_applicable() ==> {
            &&& call_requires(synth, (&self.beat,))
            &&& call_requires(synth, (&self.ac_beat,))
            &&& channels > 1 ==> forall|mono: AudioSignal<T>, beat: Vec<T>, ac_beat: Vec<T>|
                call_ensures(synth, (&self.beat,), beat) && call_ensures(
                    synth,
                    (&self.ac_beat,),
                    ac_beat,
                ) && #[trigger] is_bar(
                    mono,
                    self.pattern@,
                    self.beat_length(sample_rate),
                    sample_rate,
                    beat@,
                    ac_beat@,
                    silence,
                ) ==> call_requires(expand, (mono, channels))
        }
    }

    /// Whether a bar may come out of these tones: an error where one of them outlasts its
    /// beat, and otherwise the bar, laid out by `expand` where it takes several channels.
    pub open spec fn builds_from<T, E: Fn(AudioSignal<T>, usize) -> AudioSignal<T>>(
        self,
        sample_rate: u32,
        channels: usize,
        beat: Seq<T>,
        ac_beat: Seq<T>,
        expand: E,
        silence: T,
        res: Result<AudioSignal<T>, &'static str>,
    ) -> bool {
        let length = self.beat_length(sample_rate);
        if beat.len() > length {
            res matches Err(message) && message@ == BEAT_TOO_LONG@
        } else if ac_beat.len() > length {
            res matches Err(message) && message@ == AC_BEAT_TOO_LONG@
        } else {
            res matches Ok(buffer) && if channels > 1 {
                exists|mono: AudioSignal<T>| #[trigger]
                    is_bar(mono, self.pattern@, length, sample_rate, beat, ac_beat, silence)
                        && call_ensures(expand, (mono, channels), buffer)
            } else {
                is_bar(buffer, self.pattern@, length, sample_rate, beat, ac_beat, silence)
            }
        }
    }

    /// Whether a bar may come out of the player's settings, given what `synth` makes of its
    /// two tones.
    pub open spec fn fills<
        T,
        G: Fn(&ToneConfiguration) -> Vec<T>,
        E: Fn(AudioSignal<T>, usize) -> AudioSignal<T>,
    >(
        self,
        sample_rate: u32,
        channels: usize,
        synth: G,
        expand: E,
        silence: T,
        res: Result<AudioSignal<T>, &'static str>,
    ) -> bool {
        if !self.tones_applicable() {
            res matches Err(message) && message@ == NOT_APPLICABLE@
        } else {
            exists|beat: Vec<T>, ac_beat: Vec<T>| #[trigger]
                call_ensures(synth, (&self.beat,), beat) && #[trigger] call_ensures(
                    synth,
                    (&self.ac_beat,),
                    ac_beat,
                ) && self.builds_from(
                    sample_rate,
                    channels,
                    beat@,
                    ac_beat@,
                    expand,
                    silence,
                    res,
                )
        }
    }

    /// A player that is not playing.
    pub fn new(
        bpm: u16,
        beat_value: u16,
        beat: ToneConfiguration,
        ac_beat: ToneConfiguration,
        pattern: BeatPattern,
    ) -> (res: BeatPlayer<S, W, L>)
        ensures
            res.bpm == bpm,
            res.beat_value == beat_value,
            res.beat == beat,
            res.ac_beat == ac_beat,
            res.pattern == pattern,
            res.session() == (Session::<S, W, L> {
                stream: None,
                on_beat: None,
                swap_buffer: None,
                stream_config: None,
            }),
            res.session().wf(),
    {
        BeatPlayer {
            bpm,
            beat_value,
            beat,
            ac_beat,
            pattern,
            connection: Connection {
                session: Session {
                    stream: None,
                    on_beat: None,
                    swap_buffer: None,
                    stream_config: None,
                },
            },
        }
    }

    /// Build the bar that is played at a sample rate, for so many channels.
    ///
    /// `synth` makes the samples of a tone, and `expand` lays a bar out for several
    /// channels.
    pub fn _fill_playback_buffer<
        T: Copy,
        G: Fn(&ToneConfiguration) -> Vec<T>,
        E: Fn(AudioSignal<T>, usize) -> AudioSignal<T>,
    >(&self, sample_rate: u32, channels: usize, synth: &G, expand: &E, silence: T) -> (res: Result<
        AudioSignal<T>,
        &'static str,
    >)
        requires
            self.can_be_made(sample_rate, channels, *synth, *expand, silence),
            self.bar_is_possible::<T, G>(sample_rate, *synth),
        ensures
            self.fills(sample_rate, channels, *synth, *expand, silence, res),
    {
        if !applicable(&self.beat.frequency) || !applicable(&self.ac_beat.frequency) {
            return Err(NOT_APPLICABLE);
        }
        let beat: Vec<T> = synth(&self.beat);
        let ac_beat: Vec<T> = synth(&self.ac_beat);
        let length: usize = samples_per_beat(self.bpm, self.beat_value, sample_rate);
        let assembled = assemble_bar(
            &self.pattern,
            length,
            sample_rate,
            beat.as_slice(),
            ac_beat.as_slice(),
            silence,
        );
        let res = match assembled {
            Ok(mono) => {
                if channels > 1 {
                    Ok(expand(mono, channels))
                } else {
                    Ok(mono)
                }
            },
            Err(message) => Err(message),
        };
        assert(self.builds_from(sample_rate, channels, beat@, ac_beat@, *expand, silence, res));
        res
    }

    /// Listen for each beat while the player runs. Set it before `play_beat`,
    /// a stream that is already running keeps the listener it was built with.
    pub fn set_on_beat(&mut self, listener: L)
        ensures
            final(self).same_settings(*old(self)),
            final(self).session() == (Session { on_beat: Some(listener), ..old(self).session() }),
            old(self).session().wf() ==> final(self).session().wf(),
    {
        self.connection.session.on_beat = Some(listener);
    }

    /// Check whether the beat playback is running or starting
    pub fn is_playing(&self) -> (res: bool)
        ensures
            res == (self.session().stream is Some),
    {
        self.connection.session.stream.is_some()
    }

    /// The stream that is running.
    pub fn stream(&self) -> (res: Option<&S>)
        ensures
            match res {
                Some(stream) => self.session().stream == Some(*stream),
                None => self.session().stream is None,
            },
    {
        self.connection.session.stream.as_ref()
    }

    /// What new bars are handed to the running stream with.
    pub fn swap_buffer(&self) -> (res: Option<&W>)
        ensures
            match res {
                Some(swap) => self.session().swap_buffer == Some(*swap),
                None => self.session().swap_buffer is None,
            },
    {
        self.connection.session.swap_buffer.as_ref()
    }

    /// Sample rate and channel count of the stream that was ordered last.
    pub fn stream_config(&self) -> (res: Option<(u32, usize)>)
        ensures
            res == self.session().stream_config,
    {
        self.connection.session.stream_config
    }

    /// Stop the beat playback
    ///
    /// Hands back the stream that was running.
    pub fn stop(&mut self) -> (res: Option<S>)
        ensures
            final(self).same_settings(*old(self)),
            final(self).session() == old(self).session().stopped(),
            final(self).session().wf(),
            res == old(self).session().stream,
    {
        self.connection.session.swap_buffer = None;
        self.connection.session.stream_config = None;
        self.connection.session.stream.take()
    }

    /// How a change goes on that falls back to this value.
    pub open spec fn change<P>(self, fallback: P) -> Change<S, P> {
        match self.session().stream {
            Some(stream) => Change::Restart { stream, fallback },
            None => Change::Settled,
        }
    }

    /// The session once playback has been stopped for a change, if it was running.
    pub open spec fn held(self) -> Session<S, W, L> {
        if self.session().stream is Some {
            self.session().stopped()
        } else {
            self.session()
        }
    }

    /// Whether setting a pattern that has beats leads on to a player in this way.
    pub open spec fn sets_pattern(
        self,
        pattern: Seq<BeatPatternType>,
        change: Change<S, BeatPattern>,
        after: Self,
    ) -> bool {
        &&& after.pattern@ == pattern
        &&& after.bpm == self.bpm
        &&& after.beat_value == self.beat_value
        &&& after.same_tones(self)
        &&& after.session() == self.held()
        &&& match change {
            Change::Settled => self.session().stream is None,
            Change::Restart { stream, fallback } => {
                &&& self.session().stream == Some(stream)
                &&& fallback@ == self.pattern@
            },
        }
    }

    /// Whether ending a change of the pattern leads on to a player.
    pub open spec fn ends_pattern(self, fallback: BeatPattern, played: bool, after: Self) -> bool {
        &&& after.pattern == (if played {
            self.pattern
        } else {
            fallback
        })
        &&& after.bpm == self.bpm
        &&& after.beat_value == self.beat_value
        &&& after.same_tones(self)
        &&& after.session() == self.session()
    }

    /// Set the beat pattern
    ///
    /// Stops and resumes playback if playback is running, and returns to the previous pattern
    /// if it does not resume. A pattern without beats is refused.
    pub fn set_pattern(&mut self, pattern: &BeatPattern) -> (res: Result<
        Change<S, BeatPattern>,
        String,
    >)
        ensures
            old(self).session().wf() ==> final(self).session().wf(),
            res is Err <==> pattern@.len() == 0,
            match res {
                Err(message) => {
                    &&& message@ == EMPTY_PATTERN@
                    &&& *final(self) == *old(self)
                },
                Ok(change) => old(self).sets_pattern(pattern@, change, *final(self)),
            },
    {
        if pattern.0.is_empty() {
            return Err(EMPTY_PATTERN.to_owned());
        }
        let change = if self.is_playing() {
            match self.stop() {
                Some(stream) => Change::Restart { stream, fallback: self.pattern.clone() },
                None => Change::Settled,
            }
        } else {
            Change::Settled
        };
        self.pattern = pattern.clone();
        Ok(change)
    }

    /// Ends a change of the pattern once playback was started again, or was not.
    pub fn pattern_resumed(&mut self, fallback: BeatPattern, played: bool) -> (res: Result<
        (),
        String,
    >)
        ensures
            old(self).ends_pattern(fallback, played, *final(self)),
            match res {
                Ok(_) => played,
                Err(message) => !played && message@ == PATTERN_FAILED@,
            },
    {
        if played {
            Ok(())
        } else {
            self.pattern = fallback;
            Err(PATTERN_FAILED.to_owned())
        }
    }

    /// Whether setting the beat value leads on to a player in this way.
    pub open spec fn sets_beat_value(
        self,
        beat_value: u16,
        res: Option<Change<S, u16>>,
        after: Self,
    ) -> bool {
        if beat_value == 0 {
            res is None && after == self
        } else {
            &&& res == Some(self.change(self.beat_value))
            &&& after.beat_value == beat_value
            &&& after.bpm == self.bpm
            &&& after.same_tones(self)
            &&& after.pattern == self.pattern
            &&& after.session() == self.held()
        }
    }

    /// Whether ending a change of the beat value leads on to a player.
    pub open spec fn ends_beat_value(self, fallback: u16, played: bool, after: Self) -> bool {
        &&& after.beat_value == (if played {
            self.beat_value
        } else {
            fallback
        })
        &&& after.bpm == self.bpm
        &&& after.same_tones(self)
        &&& after.pattern == self.pattern
        &&& after.session() == self.session()
    }

    /// Set the beat value
    ///
    /// The default value is 4 which means the beat battern is played in a x/4 measure
    /// where x is the number of beats in the beat pattern.
    ///
    /// Stops and resumes playback if playback is running, and returns to the previous value
    /// if it does not resume. Zero is refused.
    pub fn set_beat_value(&mut self, beat_value: u16) -> (res: Option<Change<S, u16>>)
        ensures
            old(self).session().wf() ==> final(self).session().wf(),
            old(self).sets_beat_value(beat_value, res, *final(self)),
    {
        if beat_value == 0 {
            return None;
        }
        let fallback: u16 = self.beat_value;
        let change = if self.is_playing() {
            match self.stop() {
                Some(stream) => Change::Restart { stream, fallback },
                None => Change::Settled,
            }
        } else {
            Change::Settled
        };
        self.beat_value = beat_value;
        Some(change)
    }

    /// Ends a change of the beat value once playback was started again, or was not.
    pub fn beat_value_resumed(&mut self, fallback: u16, played: bool) -> (res: bool)
        ensures
            res == played,
            old(self).ends_beat_value(fallback, played, *final(self)),
    {
        if !played {
            self.beat_value = fallback;
        }
        played
    }

    /// Whether there is a running stream to hand new bars to.
    pub open spec fn takes_bars(self) -> bool {
        self.session().swap_buffer is Some && self.session().stream_config is Some
    }

    /// Sample rate and channel count of the bars that the running stream takes.
    pub open spec fn bar_config(self) -> (u32, usize)
        recommends
            self.takes_bars(),
    {
        self.session().stream_config->0
    }

    /// Set the beats per minute
    ///
    /// A running stream takes the new bar in place. Rebuilding it would
    /// reopen the audio device and leave a gap every time the tempo moves. A tempo at which
    /// there is no bar to play is refused, and so is zero.
    pub fn set_bpm<
        T: Copy,
        G: Fn(&ToneConfiguration) -> Vec<T>,
        E: Fn(AudioSignal<T>, usize) -> AudioSignal<T>,
    >(&mut self, bpm: u16, synth: &G, expand: &E, silence: T) -> (res: TempoChange<T>)
        requires
            bpm > 0 && old(self).takes_bars() ==> {
                let (sample_rate, channels) = old(self).bar_config();
                &&& old(self).at_tempo(bpm).can_be_made(
                    sample_rate,
                    channels,
                    *synth,
                    *expand,
                    silence,
                )
                &&& old(self).at_tempo(bpm).bar_is_possible::<T, G>(sample_rate, *synth)
            },
        ensures
            final(self).beat_value == old(self).beat_value,
            final(self).same_tones(*old(self)),
            final(self).pattern == old(self).pattern,
            final(self).session() == old(self).session(),
            final(self).bpm == (if res is Refused {
                old(self).bpm
            } else {
                bpm
            }),
            bpm == 0 ==> res is Refused,
            bpm > 0 && !old(self).takes_bars() ==> res is Settled,
            bpm > 0 && old(self).takes_bars() ==> exists|
                filled: Result<AudioSignal<T>, &'static str>,
            |
                {
                    &&& #[trigger] old(self).at_tempo(bpm).fills(
                        old(self).bar_config().0,
                        old(self).bar_config().1,
                        *synth,
                        *expand,
                        silence,
                        filled,
                    )
                    &&& match filled {
                        Ok(buffer) => res == TempoChange::HandOver(buffer),
                        Err(_) => res is Refused,
                    }
                },
    {
        if bpm == 0 {
            return TempoChange::Refused;
        }
        let previous_bpm: u16 = self.bpm;
        self.bpm = bpm;
        if self.connection.session.swap_buffer.is_none() {
            return TempoChange::Settled;
        }
        let config = match self.connection.session.stream_config {
            Some(config) => config,
            None => {
                return TempoChange::Settled;
            },
        };
        match self._fill_playback_buffer(config.0, config.1, synth, expand, silence) {
            Ok(buffer) => TempoChange::HandOver(buffer),
            Err(_) => {
                self.bpm = previous_bpm;
                TempoChange::Refused
            },
        }
    }

    /// Set the pitches of the accentuated and of the normal beat
    ///
    /// Stops and resumes playback if playback is running. The pitches stay even if it does
    /// not resume.
    pub fn set_pitches(&mut self, accent_pitch: Double, normal_pitch: Double) -> (res: Result<
        Change<S, ()>,
        PitchOutOfRange,
    >)
        ensures
            final(self).bpm == old(self).bpm,
            final(self).beat_value == old(self).beat_value,
            final(self).pattern == old(self).pattern,
            old(self).session().wf() ==> final(self).session().wf(),
            res is Ok <==> is_settable_pitch(accent_pitch) && is_settable_pitch(normal_pitch),
            match res {
                Ok(change) => {
                    &&& change == old(self).change(())
                    &&& final(self).session() == old(self).held()
                    &&& final(self).ac_beat == (ToneConfiguration {
                        frequency: accent_pitch,
                        ..old(self).ac_beat
                    })
                    &&& final(self).beat == (ToneConfiguration {
                        frequency: normal_pitch,
                        ..old(self).beat
                    })
                },
                Err(error) => {
                    &&& error.value == (if is_settable_pitch(accent_pitch) {
                        normal_pitch
                    } else {
                        accent_pitch
                    })
                    &&& *final(self) == *old(self)
                },
            },
    {
        if !settable_pitch(&accent_pitch) {
            return Err(PitchOutOfRange { value: accent_pitch });
        }
        if !settable_pitch(&normal_pitch) {
            return Err(PitchOutOfRange { value: normal_pitch });
        }
        let change = if self.is_playing() {
            match self.stop() {
                Some(stream) => Change::Restart { stream, fallback: () },
                None => Change::Settled,
            }
        } else {
            Change::Settled
        };
        self.ac_beat.frequency = accent_pitch;
        self.beat.frequency = normal_pitch;
        Ok(change)
    }

    /// Prepare playback on the default output device, given what the host says of it
    ///
    /// Comes back with what the stream is to be opened with. The device's configuration is
    /// remembered from then on, also if the stream should not open.
    pub fn play_beat<
        T: Copy,
        G: Fn(&ToneConfiguration) -> Vec<T>,
        E: Fn(AudioSignal<T>, usize) -> AudioSignal<T>,
    >(&mut self, report: DeviceReport, synth: &G, expand: &E, silence: T) -> (res: Result<
        StreamOrder<T, L>,
        String,
    >) where L: Clone
        requires
            report matches DeviceReport::Ready { sample_rate, channels } ==> {
                &&& old(self).can_be_made(sample_rate, channels as usize, *synth, *expand, silence)
                &&& old(self).bar_is_possible::<T, G>(sample_rate, *synth)
            },
        ensures
            final(self).same_settings(*old(self)),
            old(self).session().wf() ==> final(self).session().wf(),
            match report {
                DeviceReport::Ready { sample_rate, channels } => exists|
                    filled: Result<AudioSignal<T>, &'static str>,
                |
                    {
                        &&& #[trigger] old(self).fills(
                            sample_rate,
                            channels as usize,
                            *synth,
                            *expand,
                            silence,
                            filled,
                        )
                        &&& match filled {
                            Ok(buffer) => {
                                &&& res matches Ok(order)
                                &&& order.buffer == buffer
                                &&& order.beats == old(self).pattern@.len()
                                &&& match old(self).session().on_beat {
                                    Some(listener) => order.on_beat matches Some(copy) && cloned(
                                        listener,
                                        copy,
                                    ),
                                    None => order.on_beat is None,
                                }
                                &&& final(self).session() == old(self).session().ordered(
                                    sample_rate,
                                    channels as usize,
                                )
                            },
                            Err(message) => {
                                &&& res matches Err(told)
                                &&& told@ == message@
                                &&& final(self).session() == old(self).session()
                            },
                        }
                    },
                _ => {
                    &&& res matches Err(told)
                    &&& told@ == device_missing(report)
                    &&& final(self).session() == old(self).session()
                },
            },
    {
        let (sample_rate, channels): (u32, usize) = match report {
            DeviceReport::Busy => {
                return Err(BUSY.to_owned());
            },
            DeviceReport::NoDevice(host) => {
                let mut message = NO_DEVICE.to_owned();
                message.append(host.as_str());
                return Err(message);
            },
            DeviceReport::NoConfig(error) => {
                let mut message = NO_CONFIG.to_owned();
                message.append(error.as_str());
                return Err(message);
            },
            DeviceReport::Ready { sample_rate, channels } => (sample_rate, channels as usize),
        };
        match self._fill_playback_buffer(sample_rate, channels, synth, expand, silence) {
            Ok(buffer) => {
                self.connection.session.stream_config = Some((sample_rate, channels));
                Ok(
                    StreamOrder {
                        buffer,
                        beats: self.pattern.0.len(),
                        on_beat: self.connection.session.on_beat.clone(),
                    },
                )
            },
            Err(message) => Err(message.to_owned()),
        }
    }

    /// Take over the stream that was opened for playback, or learn why it was not
    ///
    /// A stream that opened is to be started next.
    pub fn stream_opened(&mut self, opened: Result<(S, W), String>) -> (res: Result<(), String>)
        ensures
            final(self).same_settings(*old(self)),
            old(self).session().stream_config is Some && old(self).session().wf() ==> final(self).session().wf(),
            match opened {
                Ok((stream, swap)) => {
                    &&& res is Ok
                    &&& final(self).session() == old(self).session().opened(stream, swap)
                },
                Err(reason) => {
                    &&& res matches Err(told)
                    &&& told == reason
                    &&& final(self).session() == old(self).session()
                },
            },
    {
        match opened {
            Ok((stream, swap)) => {
                self.connection.session.stream = Some(stream);
                self.connection.session.swap_buffer = Some(swap);
                Ok(())
            },
            Err(reason) => Err(reason),
        }
    }

    /// Learn whether the stream that was opened has started
    ///
    /// A stream that has not is let go of: nothing is playing then.
    pub fn stream_started(&mut self, started: bool) -> (res: Result<(), String>)
        ensures
            final(self).same_settings(*old(self)),
            old(self).session().wf() ==> final(self).session().wf(),
            match res {
                Ok(_) => started && final(self).session() == old(self).session(),
                Err(message) => {
                    &&& !started
                    &&& message@ == NOT_STARTED@
                    &&& final(self).session() == old(self).session().stopped()
                },
            },
    {
        if started {
            Ok(())
        } else {
            self.stop();
            Err(NOT_STARTED.to_owned())
        }
    }

    /// The player's settings in a line.
    ///
    /// The pitches of the accentuated and of the normal beat come as text.
    pub fn get_status(&self, accent: &str, normal: &str) -> (res: String)
        ensures
            res@ == "pattern: "@ + notation_of(self.pattern@) + "  value: 1/"@ + decimal(
                self.beat_value as nat,
            ) + " bpm: "@ + decimal(self.bpm as nat) + "  !: "@ + accent@ + "Hz  +:"@ + normal@
                + "Hz"@,
    {
        let mut res = String::new();
        res.append("pattern: ");
        res.append(self.pattern.to_string().as_str());
        res.append("  value: 1/");
        res.append(decimal_text(self.beat_value).as_str());
        res.append(" bpm: ");
        res.append(decimal_text(self.bpm).as_str());
        res.append("  !: ");
        res.append(accent);
        res.append("Hz  +:");
        res.append(normal);
        res.append("Hz");
        res
    }

    /// The player's settings, and whether it is playing.
    ///
    /// The pitches of the accentuated and of the normal beat come as text.
    pub fn to_string(&self, accent: &str, normal: &str) -> (res: String)
        ensures
            res@ == "bpm: "@ + right_aligned(decimal(self.bpm as nat), 4) + ", beat_value: 1/"@
                + decimal(self.beat_value as nat) + ", pattern: "@ + spelled_out(self.pattern@)
                + ", accent: "@ + accent@ + "Hz, normal: "@ + normal@ + "Hz, playing: "@ + truth(
                self.session().stream is Some,
            ),
    {
        let mut res = String::new();
        res.append("bpm: ");
        res.append(right_align(decimal_text(self.bpm).as_str(), 4).as_str());
        res.append(", beat_value: 1/");
        res.append(decimal_text(self.beat_value).as_str());
        res.append(", pattern: ");
        res.append(self.pattern.spell_out().as_str());
        res.append(", accent: ");
        res.append(accent);
        res.append("Hz, normal: ");
        res.append(normal);
        res.append("Hz, playing: ");
        if self.is_playing() {
            res.append("true");
        } else {
            res.append("false");
        }
        res
    }
}

} // verus!
