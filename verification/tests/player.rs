use beatplayer::double::Double;
use beatplayer::pattern::BeatPattern;
use beatplayer::player::{
    BeatPlayer, Change, DeviceReport, PitchOutOfRange, StreamOrder, TempoChange,
};
use beatplayer::signal::{AudioSignal, ToneConfiguration};

type Swap = &'static str;
type Player = BeatPlayer<u32, Swap, &'static str>;

fn double(value: f64) -> Double {
    Double { bits: value.to_bits() }
}

fn tone(frequency: f64) -> ToneConfiguration {
    ToneConfiguration {
        frequency: double(frequency),
        sample_rate: double(8000.0),
        length: double(0.05),
        overtones: 1,
        channels: 1,
    }
}

fn player() -> Player {
    BeatPlayer::new(120, 4, tone(440.0), tone(880.0), BeatPattern::try_from("!+").unwrap())
}

/// Two samples for the accent, one for the normal beat.
fn synth(tone: &ToneConfiguration) -> Vec<f32> {
    if tone.frequency == double(880.0) {
        vec![0.5, 0.25]
    } else {
        vec![1.0]
    }
}

fn expand(bar: AudioSignal<f32>, channels: usize) -> AudioSignal<f32> {
    let signal = bar.signal.iter().flat_map(|s| vec![*s; channels]).collect();
    AudioSignal { signal, index: bar.index, tone: bar.tone }
}

fn ready(sample_rate: u32, channels: u16) -> DeviceReport {
    DeviceReport::Ready { sample_rate, channels }
}

fn play(player: &mut Player, report: DeviceReport) -> Result<StreamOrder<f32, &'static str>, String> {
    player.play_beat(report, &synth, &expand, 0f32)
}

fn no_swap() -> Swap {
    "swap"
}

fn set_bpm(player: &mut Player, bpm: u16) -> TempoChange<f32> {
    player.set_bpm(bpm, &synth, &expand, 0f32)
}

fn fill(player: &Player, sample_rate: u32, channels: usize) -> Result<Vec<f32>, &'static str> {
    player
        ._fill_playback_buffer(sample_rate, channels, &synth, &expand, 0f32)
        .map(|buffer| buffer.signal)
}

fn playing(swap: Swap) -> Player {
    let mut player = player();
    play(&mut player, ready(6, 1)).unwrap();
    player.stream_opened(Ok((7, swap))).unwrap();
    player.stream_started(true).unwrap();
    player
}

#[test]
fn new_player_is_not_playing() {
    let player = player();
    assert!(!player.is_playing());
    assert!(player.stream().is_none());
    assert_eq!((player.bpm, player.beat_value), (120, 4));
    assert_eq!(player.pattern.to_string(), "!+");
}

#[test]
fn stream_is_ordered_for_the_device() {
    let mut player = player();
    player.set_on_beat("listener");
    let order = play(&mut player, ready(6, 1)).unwrap();
    assert_eq!(order.buffer.signal, vec![0.5f32, 0.25, 0.0, 1.0, 0.0, 0.0]);
    assert_eq!(order.buffer.tone.sample_rate, 6);
    assert_eq!(order.beats, 2);
    assert_eq!(order.on_beat, Some("listener"));
    assert!(!player.is_playing());
}

#[test]
fn bar_is_laid_out_for_several_channels() {
    let order = play(&mut player(), ready(4, 2)).unwrap();
    assert_eq!(order.buffer.signal, vec![0.5f32, 0.5, 0.25, 0.25, 1.0, 1.0, 0.0, 0.0]);
    assert_eq!(order.on_beat, None);
    let mono = play(&mut player(), ready(4, 0)).unwrap();
    assert_eq!(mono.buffer.signal.len(), 4);
}

#[test]
fn devices_that_are_not_ready() {
    let mut player = player();
    assert_eq!(
        play(&mut player, DeviceReport::Busy).err().unwrap(),
        "Cannot start beat playback, it is already running"
    );
    assert_eq!(
        play(&mut player, DeviceReport::NoDevice("Alsa".to_string())).err().unwrap(),
        "No audio device for Alsa"
    );
    assert_eq!(
        play(&mut player, DeviceReport::NoConfig("DeviceNotAvailable".to_string())).err().unwrap(),
        "No output configuration on default output device: DeviceNotAvailable"
    );
}

#[test]
fn bars_that_cannot_be_built() {
    let mut fast = player();
    fast.bpm = 360;
    assert_eq!(
        play(&mut fast, ready(6, 1)).err().unwrap(),
        "Accentuated beat to long to play at current bpm"
    );
    fast.bpm = 65535;
    assert_eq!(
        play(&mut fast, ready(6, 1)).err().unwrap(),
        "Beat to long to play at current bpm"
    );
    for frequency in [0.0, -0.0, -440.0, f64::NEG_INFINITY] {
        let mut silent = player();
        silent.beat = tone(frequency);
        assert_eq!(
            play(&mut silent, ready(6, 1)).err().unwrap(),
            "Tone Configuration not applicable"
        );
        let mut dull = player();
        dull.ac_beat = tone(frequency);
        assert_eq!(
            dull._fill_playback_buffer(6, 1, &synth, &expand, 0f32).err().unwrap(),
            "Tone Configuration not applicable"
        );
    }
    let mut odd = player();
    odd.beat = tone(f64::NAN);
    assert!(play(&mut odd, ready(6, 1)).is_ok());
}

#[test]
fn opened_stream_is_taken_over() {
    let mut player = playing(no_swap());
    assert!(player.is_playing());
    assert_eq!(player.stream(), Some(&7));
    player.stream_opened(Ok((8, no_swap()))).unwrap();
    assert_eq!(player.stream(), Some(&8));
    assert_eq!(player.stop(), Some(8));
    assert!(!player.is_playing());
    assert_eq!(player.stop(), None);
}

#[test]
fn stream_that_does_not_open_or_start() {
    let mut player = player();
    play(&mut player, ready(6, 1)).unwrap();
    assert_eq!(player.stream_opened(Err("no".to_string())), Err("no".to_string()));
    assert!(!player.is_playing());
    player.stream_opened(Ok((7, no_swap()))).unwrap();
    assert_eq!(
        player.stream_started(false),
        Err("Something went wrong with beat playback".to_string())
    );
    assert!(!player.is_playing());
    assert!(player.stream_config().is_none());
    assert!(matches!(set_bpm(&mut player, 65535), TempoChange::Settled));
}

#[test]
fn pattern_without_beats_is_refused() {
    let mut player = playing(no_swap());
    assert_eq!(
        player.set_pattern(&BeatPattern::try_from("").unwrap()).err().unwrap(),
        "Beat pattern is empty, will not change anything"
    );
    assert_eq!(player.pattern.to_string(), "!+");
    assert!(player.is_playing());
}

#[test]
fn pattern_is_set() {
    let mut player = player();
    let pattern = BeatPattern::try_from("!...").unwrap();
    assert!(matches!(player.set_pattern(&pattern), Ok(Change::Settled)));
    assert_eq!(player.pattern.to_string(), "!...");
}

#[test]
fn failed_pattern_is_taken_back() {
    for played in [true, false] {
        let mut player = playing(no_swap());
        let pattern = BeatPattern::try_from("!...").unwrap();
        match player.set_pattern(&pattern) {
            Ok(Change::Restart { stream, fallback }) => {
                assert_eq!(stream, 7);
                assert!(!player.is_playing());
                assert_eq!(player.pattern.to_string(), "!...");
                let expected = if played {
                    Ok(())
                } else {
                    Err("New pattern does not seem to work, returning to previous pattern".to_string())
                };
                assert_eq!(player.pattern_resumed(fallback, played), expected);
            }
            _ => panic!("playback is to be restarted"),
        }
        assert_eq!(player.pattern.to_string(), if played { "!..." } else { "!+" });
    }
}

#[test]
fn beat_value_is_set() {
    let mut player = player();
    assert!(player.set_beat_value(0).is_none());
    assert_eq!(player.beat_value, 4);
    assert!(matches!(player.set_beat_value(8), Some(Change::Settled)));
    assert_eq!(player.beat_value, 8);
}

#[test]
fn failed_beat_value_is_taken_back() {
    for played in [true, false] {
        let mut player = playing(no_swap());
        match player.set_beat_value(8) {
            Some(Change::Restart { stream, fallback }) => {
                assert_eq!((stream, fallback), (7, 4));
                assert!(!player.is_playing());
                assert_eq!(player.beat_value, 8);
                assert_eq!(player.beat_value_resumed(fallback, played), played);
            }
            _ => panic!("playback is to be restarted"),
        }
        assert_eq!(player.beat_value, if played { 8 } else { 4 });
    }
}

#[test]
fn refused_beat_value_does_not_stop_playback() {
    let mut player = playing(no_swap());
    assert!(player.set_beat_value(0).is_none());
    assert!(player.is_playing());
}

#[test]
fn tempo_is_set() {
    let mut player = player();
    assert!(matches!(set_bpm(&mut player, 0), TempoChange::Refused));
    assert_eq!(player.bpm, 120);
    assert!(matches!(set_bpm(&mut player, 65535), TempoChange::Settled));
    assert_eq!(player.bpm, 65535);
}

#[test]
fn running_stream_takes_the_new_bar() {
    let mut player = playing(no_swap());
    match set_bpm(&mut player, 180) {
        TempoChange::HandOver(bar) => assert_eq!(bar.signal, vec![0.5f32, 0.25, 1.0, 0.0]),
        _ => panic!("a bar is to be handed over"),
    }
    assert_eq!(player.bpm, 180);
    assert!(player.is_playing());
    assert_eq!(player.swap_buffer(), Some(&"swap"));
    // a beat of one sample has no room for the accent
    assert!(matches!(set_bpm(&mut player, 360), TempoChange::Refused));
    assert_eq!(player.bpm, 180);
    assert!(matches!(set_bpm(&mut player, 0), TempoChange::Refused));
    assert_eq!(player.bpm, 180);
    assert!(player.is_playing());
}

#[test]
fn stopped_player_takes_no_bar() {
    let mut player = playing(no_swap());
    player.stop();
    assert!(player.swap_buffer().is_none());
    assert!(matches!(set_bpm(&mut player, 65535), TempoChange::Settled));
    assert_eq!(player.bpm, 65535);
}

#[test]
fn equal_products_give_equal_bars() {
    for (bpm, beat_value) in [(60, 8), (240, 2), (480, 1), (30, 16)] {
        let mut other = player();
        other.bpm = bpm;
        other.beat_value = beat_value;
        for sample_rate in [0, 1, 2, 3, 4, 6, 100] {
            assert_eq!(fill(&other, sample_rate, 2), fill(&player(), sample_rate, 2));
        }
    }
}

#[test]
fn slower_is_played_where_faster_is() {
    let mut player = player();
    let mut shortest = 0;
    for bpm in (1..400).rev() {
        player.bpm = bpm;
        match fill(&player, 6, 1) {
            Ok(bar) => {
                assert!(bar.len() >= shortest);
                shortest = bar.len();
            }
            Err(_) => assert_eq!(shortest, 0),
        }
    }
    assert_eq!(shortest, 720);
}

#[test]
fn channels_only_lay_out() {
    for sample_rate in [1, 3, 4, 6] {
        let mono = fill(&player(), sample_rate, 1);
        assert_eq!(fill(&player(), sample_rate, 0), mono);
        for channels in 2..5 {
            let laid_out = mono.clone().map(|bar| {
                let doubled: Vec<f32> = bar.iter().flat_map(|s| vec![*s; channels]).collect();
                doubled
            });
            assert_eq!(fill(&player(), sample_rate, channels), laid_out);
        }
    }
}

#[test]
fn pitches_are_set() {
    let mut player = player();
    assert!(matches!(player.set_pitches(double(20.0), double(20000.0)), Ok(Change::Settled)));
    assert_eq!(player.ac_beat, tone(20.0));
    assert_eq!(player.beat, tone(20000.0));
    let mut busy = playing(no_swap());
    match busy.set_pitches(double(500.0), double(250.0)) {
        Ok(Change::Restart { stream, fallback: () }) => assert_eq!(stream, 7),
        _ => panic!("playback is to be restarted"),
    }
    assert!(!busy.is_playing());
    assert_eq!((busy.ac_beat, busy.beat), (tone(500.0), tone(250.0)));
}

#[test]
fn pitches_out_of_range_are_refused() {
    let mut player = playing(no_swap());
    let cases = [(19.0, 440.0, 19.0), (440.0, 20001.0, 20001.0), (f64::NAN, 1.0, f64::NAN)];
    for (accent, normal, value) in cases {
        assert_eq!(
            player.set_pitches(double(accent), double(normal)).err().unwrap(),
            PitchOutOfRange { value: double(value) }
        );
    }
    assert!(player.is_playing());
    assert_eq!((player.ac_beat, player.beat), (tone(880.0), tone(440.0)));
}

#[test]
fn pitches_out_of_range_are_named() {
    let error = PitchOutOfRange { value: double(19.5) };
    assert_eq!(error.message("19.5"), "Value 19.5 out of range");
}

#[test]
fn status_line() {
    assert_eq!(
        player().get_status("880.000", "440.000"),
        "pattern: !+  value: 1/4 bpm: 120  !: 880.000Hz  +:440.000Hz"
    );
}

#[test]
fn description() {
    assert_eq!(
        player().to_string("880.00", "440.00"),
        "bpm:  120, beat_value: 1/4, pattern: BeatPattern([Accent, Beat]), accent: 880.00Hz, \
         normal: 440.00Hz, playing: false"
    );
    assert!(playing(no_swap()).to_string("1", "2").ends_with("normal: 2Hz, playing: true"));
}

#[test]
fn running_stream_keeps_its_listener() {
    let mut player = player();
    player.set_on_beat("first");
    let order = play(&mut player, ready(6, 1)).unwrap();
    player.stream_opened(Ok((7, no_swap()))).unwrap();
    player.set_on_beat("second");
    assert_eq!(player.stream(), Some(&7));
    assert_eq!(order.on_beat, Some("first"));
    assert_eq!(play(&mut player, ready(6, 1)).unwrap().on_beat, Some("second"));
}
