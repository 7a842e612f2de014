use beatplayer::bar::{assemble_bar, fits_vector};
use beatplayer::pattern::BeatPattern;

fn pattern(text: &str) -> BeatPattern {
    BeatPattern::try_from(text).unwrap()
}

#[test]
fn bar_holds_each_beat_in_turn() {
    let bar = assemble_bar(&pattern("!+.!"), 4, 8000, &[0.25f32], &[0.5f32, -0.5], 0f32).unwrap();
    assert_eq!(
        bar.signal,
        vec![
            0.5f32, -0.5, 0.0, 0.0, 0.25, 0.0, 0.0, 0.0, 0.0, 0.0, 0.0, 0.0, 0.5, -0.5, 0.0, 0.0
        ]
    );
    assert_eq!(bar.index, 0);
    assert_eq!(bar.tone.frequency.bits, 0);
    assert_eq!(bar.tone.sample_rate, 8000);
    assert_eq!(bar.tone.samples, 16);
    assert_eq!(bar.tone.overtones, 0);
    assert_eq!(bar.tone.channels, 1);
}

#[test]
fn every_beat_is_the_same_length() {
    let bar = assemble_bar(&pattern("+!.+"), 3, 8000, &[1u8, 2], &[7u8, 8, 9], 0u8).unwrap();
    let beats: Vec<&[u8]> = bar.signal.chunks(3).collect();
    assert_eq!(beats, vec![&[1u8, 2, 0][..], &[7, 8, 9], &[0, 0, 0], &[1, 2, 0]]);
}

#[test]
fn tones_may_fill_their_beats() {
    let bar = assemble_bar(&pattern("+!"), 2, 1, &[1u8, 2], &[3u8, 4], 0u8).unwrap();
    assert_eq!(bar.signal, vec![1, 2, 3, 4]);
}

#[test]
fn tones_that_outlast_their_beats_are_refused() {
    assert_eq!(
        assemble_bar(&pattern("!"), 1, 1, &[1u8, 2], &[3u8], 0u8).unwrap_err(),
        "Beat to long to play at current bpm"
    );
    assert_eq!(
        assemble_bar(&pattern("+"), 1, 1, &[1u8], &[3u8, 4], 0u8).unwrap_err(),
        "Accentuated beat to long to play at current bpm"
    );
    assert_eq!(
        assemble_bar(&pattern(""), 1, 1, &[1u8, 2], &[3u8, 4], 0u8).unwrap_err(),
        "Beat to long to play at current bpm"
    );
}

#[test]
fn pattern_without_beats_makes_an_empty_bar() {
    let bar = assemble_bar(&pattern(""), isize::MAX as usize, 1, &[1u8], &[3u8], 0u8).unwrap();
    assert!(bar.signal.is_empty());
    assert_eq!(bar.tone.samples, 0);
}

#[test]
fn bars_that_a_vector_can_hold() {
    let most = isize::MAX as usize;
    assert!(fits_vector::<f32>(4, 22050));
    assert!(fits_vector::<f32>(0, most));
    assert!(fits_vector::<u8>(1, most));
    assert!(!fits_vector::<u8>(1, most + 1));
    assert!(fits_vector::<f32>(1, most / 4));
    assert!(!fits_vector::<f32>(1, most / 4 + 1));
    assert!(!fits_vector::<f32>(2, most));
    assert!(!fits_vector::<f32>(usize::MAX, usize::MAX));
}
