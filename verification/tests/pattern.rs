use beatplayer::pattern::{BeatPattern, BeatPatternType};

#[test]
fn characters_stand_for_beats() {
    assert_eq!(BeatPatternType::try_from(&'!'), Ok(BeatPatternType::Accent));
    assert_eq!(BeatPatternType::try_from(&'+'), Ok(BeatPatternType::Beat));
    assert_eq!(BeatPatternType::try_from(&'.'), Ok(BeatPatternType::Pause));
}

#[test]
fn other_characters_are_errors() {
    for c in ['x', ' ', '"', '\u{e9}', '\u{1f941}'] {
        assert_eq!(
            BeatPatternType::try_from(&c),
            Err(format!("char \"{}\" is not an BeatPatternType", c))
        );
    }
}

#[test]
fn beats_are_written_as_characters() {
    assert_eq!(char::from(&BeatPatternType::Accent), '!');
    assert_eq!(char::from(&BeatPatternType::Beat), '+');
    assert_eq!(char::from(&BeatPatternType::Pause), '.');
}

#[test]
fn pattern_is_read_character_by_character() {
    let pattern = BeatPattern::try_from("!+.+").unwrap();
    assert_eq!(
        pattern.0,
        vec![
            BeatPatternType::Accent,
            BeatPatternType::Beat,
            BeatPatternType::Pause,
            BeatPatternType::Beat
        ]
    );
    assert!(BeatPattern::try_from("").unwrap().0.is_empty());
}

#[test]
fn first_unknown_character_is_reported() {
    assert_eq!(
        BeatPattern::try_from("!+\u{e9}x").unwrap_err(),
        "char \"\u{e9}\" is not an BeatPatternType"
    );
    assert_eq!(
        BeatPattern::try_from(" !").unwrap_err(),
        "char \" \" is not an BeatPatternType"
    );
}

#[test]
fn notation_reads_back() {
    for text in ["", "!", "!+++", "..!+.", "++++++++"] {
        let pattern = BeatPattern::try_from(text).unwrap();
        assert_eq!(pattern.to_string(), text);
        let again = BeatPattern::try_from(pattern.to_string().as_str()).unwrap();
        assert_eq!(again.0, pattern.0);
    }
}

#[test]
fn spelled_out_pattern_is_its_debug_text() {
    for text in ["", "!", "!+", ".!+."] {
        let pattern = BeatPattern::try_from(text).unwrap();
        assert_eq!(pattern.spell_out(), format!("{:?}", pattern));
    }
    assert_eq!(
        BeatPattern::try_from("!+.").unwrap().spell_out(),
        "BeatPattern([Accent, Beat, Pause])"
    );
}

#[test]
fn clone_keeps_the_beats() {
    let pattern = BeatPattern::try_from("!.+").unwrap();
    assert_eq!(pattern.clone().0, pattern.0);
}
