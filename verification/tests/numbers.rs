use beatplayer::bar::samples_per_beat;
use beatplayer::double::{applicable, settable_pitch, Double};
use beatplayer::text::{decimal_text, right_align};

fn double(value: f64) -> Double {
    Double { bits: value.to_bits() }
}

fn samples() -> Vec<f64> {
    vec![
        0.0,
        -0.0,
        5e-324,
        -5e-324,
        2.2250738585072014e-308,
        1.0,
        -1.0,
        19.999999999999996,
        20.0,
        20.000000000000004,
        440.0,
        19999.999999999996,
        20000.0,
        20000.000000000004,
        1e300,
        -1e300,
        f64::MAX,
        f64::MIN,
        f64::INFINITY,
        f64::NEG_INFINITY,
        f64::NAN,
        -f64::NAN,
    ]
}

#[test]
fn doubles_are_ordered_as_numbers() {
    for a in samples() {
        for b in samples() {
            assert_eq!(double(a).at_most(&double(b)), a <= b, "{} <= {}", a, b);
        }
    }
}

#[test]
fn settable_pitches_lie_between_the_bounds() {
    for a in samples() {
        assert_eq!(settable_pitch(&double(a)), (20.0..=20000.0).contains(&a), "{}", a);
    }
}

#[test]
fn frequencies_above_zero_are_applicable() {
    for a in samples() {
        assert_eq!(!applicable(&double(a)), a <= 0.0, "{}", a);
    }
}

#[test]
fn beat_lengths() {
    assert_eq!(samples_per_beat(120, 4, 44100), 22050);
    assert_eq!(samples_per_beat(120, 8, 44100), 11025);
    assert_eq!(samples_per_beat(60, 4, 48000), 48000);
    assert_eq!(samples_per_beat(90, 4, 44100), 29400);
    // 60 * 44100 / 110 is 24054.54...
    assert_eq!(samples_per_beat(110, 4, 44100), 24055);
    // a half is rounded up
    assert_eq!(samples_per_beat(120, 4, 1), 1);
    assert_eq!(samples_per_beat(80, 3, 1), 1);
    assert_eq!(samples_per_beat(40, 4, 1), 2);
    assert_eq!(samples_per_beat(65535, 65535, 44100), 0);
}

#[test]
fn no_tempo_lasts_for_ever() {
    assert_eq!(samples_per_beat(0, 4, 44100), isize::MAX as usize);
    assert_eq!(samples_per_beat(120, 0, 44100), isize::MAX as usize);
    assert_eq!(samples_per_beat(0, 4, 0), 0);
    assert_eq!(samples_per_beat(120, 4, 0), 0);
}

#[test]
fn beat_lengths_are_those_of_double_arithmetic() {
    let rates = [
        0u32, 1, 2, 3, 7, 8000, 11025, 22050, 44100, 48000, 96000, 192000, 4294967295, 4294967291,
    ];
    let values = [0u16, 1, 2, 3, 4, 5, 7, 8, 16, 31, 32, 255, 4099, 65521, 65535];
    let mut tempos: Vec<u16> = (0..1000).collect();
    tempos.extend([4093, 32768, 65521, 65534, 65535]);
    for &rate in rates.iter() {
        for &value in values.iter() {
            for &bpm in tempos.iter() {
                let beats_per_minute = bpm as f64 * value as f64 / 4.0;
                let expected = ((60.0 * rate as f64) / beats_per_minute).round() as isize;
                assert_eq!(
                    samples_per_beat(bpm, value, rate) as isize,
                    expected,
                    "{} {} {}",
                    bpm,
                    value,
                    rate
                );
            }
        }
    }
}

#[test]
fn base_beat_value_plays_the_tempo() {
    for bpm in 1..2000u16 {
        let expected = (60.0 * 44100.0 / bpm as f64).round() as usize;
        assert_eq!(samples_per_beat(bpm, 4, 44100), expected);
    }
}

#[test]
fn faster_is_not_longer() {
    for bpm in 1..2000u16 {
        assert!(samples_per_beat(bpm + 1, 4, 44100) <= samples_per_beat(bpm, 4, 44100));
    }
}

#[test]
fn beat_length_is_nearest() {
    for bpm in 1..2000u64 {
        let played = samples_per_beat(bpm as u16, 3, 44100) as i64 * (bpm as i64 * 3);
        let minute = 60 * 44100 * 4;
        assert!(2 * (played - minute).abs() <= bpm as i64 * 3);
    }
}

#[test]
fn numbers_in_decimal_notation() {
    for n in [0u16, 7, 9, 10, 99, 100, 120, 4095, 10000, 65535] {
        assert_eq!(decimal_text(n), format!("{}", n));
    }
}

#[test]
fn numbers_are_aligned_to_the_right() {
    for n in [0u16, 12, 120, 4095, 10000] {
        assert_eq!(right_align(&decimal_text(n), 4), format!("{:4}", n));
    }
    assert_eq!(right_align("\u{e9}", 3), "  \u{e9}");
    assert_eq!(right_align("", 0), "");
}
