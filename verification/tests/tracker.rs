use beatplayer::bar::assemble_bar;
use beatplayer::pattern::BeatPattern;
use beatplayer::signal::AudioSignal;
use beatplayer::stream::Playback;
use beatplayer::tracker::BeatTracker;

fn bar(text: &str, samples_per_beat: usize) -> AudioSignal<u8> {
    let pattern = BeatPattern::try_from(text).unwrap();
    assemble_bar(&pattern, samples_per_beat, 8000, &[1u8], &[2u8], 0u8).unwrap()
}

#[test]
fn each_beat_is_announced_once() {
    let mut tracker = BeatTracker::new(40, 4, Some("listener"));
    let positions = [0, 3, 9, 10, 11, 19, 20, 35, 39, 0, 1, 39, 12];
    let heard: Vec<usize> = positions.iter().filter_map(|p| tracker.report(*p)).collect();
    assert_eq!(heard, vec![0, 1, 2, 3, 0, 3, 1]);
    assert_eq!(tracker.on_beat(), Some(&"listener"));
}

#[test]
fn decisions_of_the_tracker() {
    let mut tracker = BeatTracker::new(40, 4, Some(()));
    assert_eq!(tracker.report(0), Some(0));
    assert_eq!(tracker.report(9), None);
    assert_eq!(tracker.report(10), Some(1));
    assert_eq!(tracker.report(10), None);
    tracker.rewind();
    assert_eq!(tracker.report(10), Some(1));
    assert_eq!(tracker.report(40), Some(4));
}

#[test]
fn nothing_is_announced_without_a_listener() {
    let mut tracker: BeatTracker<()> = BeatTracker::new(40, 4, None);
    assert_eq!(tracker.report(0), None);
    assert_eq!(tracker.report(15), None);
    assert!(tracker.on_beat().is_none());
    let mut playback: Playback<u8, ()> = Playback::new(bar("!+", 5), 2, None);
    playback.current.index = 7;
    assert_eq!(playback.report(), None);
    playback.current.index = 2;
    assert_eq!(playback.report(), None);
}

#[test]
fn a_beat_lasts_a_sample_at_least() {
    let mut tracker = BeatTracker::new(3, 0, Some(()));
    assert_eq!(tracker.report(2), Some(0));
    assert_eq!(tracker.report(3), Some(1));
    let mut short = BeatTracker::new(2, 5, Some(()));
    assert_eq!(short.report(1), Some(1));
    let mut empty = BeatTracker::new(0, 0, Some(()));
    assert_eq!(empty.report(7), Some(7));
}

#[test]
fn retuning_remembers_the_last_beat() {
    let mut tracker = BeatTracker::new(40, 4, Some(()));
    assert_eq!(tracker.report(25), Some(2));
    tracker.retune(80, 4);
    assert_eq!(tracker.report(50), None);
    assert_eq!(tracker.report(60), Some(3));
}

#[test]
fn position_names_the_beat() {
    let bar = bar("!+.+", 5);
    for channels in 1..4usize {
        let length = bar.signal.len() * channels;
        for position in 0..length {
            let mut tracker = BeatTracker::new(length, 4, Some(()));
            assert_eq!(tracker.report(position), Some(position / channels / 5));
        }
    }
}

#[test]
fn tempo_change_keeps_the_beat() {
    for index in 0..40usize {
        let mut tracker = BeatTracker::new(40, 4, Some(()));
        let beat = tracker.report(index);
        assert_eq!(beat, Some(index / 10));
        tracker.retune(28, 4);
        assert_eq!(tracker.report(index * 28 / 40), None);
    }
}

/// What is announced at each position in turn.
fn announced(playback: &mut Playback<u8, ()>, positions: &[usize]) -> Vec<Option<usize>> {
    let mut heard = Vec::new();
    for position in positions {
        playback.current.index = *position;
        heard.push(playback.report());
    }
    heard
}

#[test]
fn new_bar_is_taken_over_at_a_position() {
    let mut playback = Playback::new(bar("!+++", 10), 4, Some(()));
    assert_eq!(announced(&mut playback, &[25]), vec![Some(2)]);
    playback.swap_in(bar("!+++", 4), 10);
    assert_eq!(playback.current.index, 10);
    assert_eq!(playback.current.signal.len(), 16);
    assert_eq!(playback.report(), None);
    assert_eq!(announced(&mut playback, &[11, 12]), vec![None, Some(3)]);
}

#[test]
fn each_pass_through_a_bar_of_one_beat_is_announced() {
    let mut playback = Playback::new(bar("!", 10), 1, Some(()));
    assert_eq!(
        announced(&mut playback, &[3, 6, 9, 2, 5, 8, 1, 1]),
        vec![Some(0), None, None, Some(0), None, None, Some(0), None]
    );
    playback.swap_in(bar("!", 5), 0);
    assert_eq!(announced(&mut playback, &[2, 4, 1]), vec![None, None, Some(0)]);
}

#[test]
fn each_pass_through_a_bar_is_announced() {
    let mut playback = Playback::new(bar("!+", 10), 2, Some(()));
    assert_eq!(
        announced(&mut playback, &[3, 13, 18, 12, 2]),
        vec![Some(0), Some(1), None, Some(1), Some(0)]
    );
}
