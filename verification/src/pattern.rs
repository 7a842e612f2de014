//! Beat patterns and their one-character-per-beat notation.

use vstd::prelude::*;
use vstd::std_specs::convert::{FromSpecImpl, TryFromSpecImpl};

verus! {

/// Metronome beat pattern types
#[derive(Debug, PartialEq, Eq, Structural, Clone, Copy)]
pub enum BeatPatternType {
    Accent,
    Beat,
    Pause,
}

/// The beat that a character stands for.
pub open spec fn beat_of(c: char) -> Option<BeatPatternType> {
    if c == '!' {
        Some(BeatPatternType::Accent)
    } else if c == '+' {
        Some(BeatPatternType::Beat)
    } else if c == '.' {
        Some(BeatPatternType::Pause)
    } else {
        None
    }
}

/// The character that a beat is written as.
pub open spec fn char_of(beat: BeatPatternType) -> char {
    match beat {
        BeatPatternType::Accent => '!',
        BeatPatternType::Beat => '+',
        BeatPatternType::Pause => '.',
    }
}

/// What is said of a character that stands for no beat.
pub open spec fn not_a_beat(c: char) -> Seq<char> {
    "char \""@ + seq![c] + "\" is not an BeatPatternType"@
}

impl TryFromSpecImpl<&char> for BeatPatternType {
    open spec fn obeys_try_from_spec() -> bool {
        false
    }

    open spec fn try_from_spec(v: &char) -> Result<Self, Self::Error> {
        arbitrary()
    }
}

impl TryFrom<&char> for BeatPatternType {
    type Error = String;

    fn try_from(value: &char) -> (res: Result<Self, String>)
        ensures
            match res {
                Ok(beat) => beat_of(*value) == Some(beat),
                Err(message) => beat_of(*value) is None && message@ == not_a_beat(*value),
            },
    {
        match *value {
            '!' => Ok(BeatPatternType::Accent),
            '+' => Ok(BeatPatternType::Beat),
            '.' => Ok(BeatPatternType::Pause),
            // anything else is an error
            x => {
                let mut message = String::new();
                message.append("char \"");
                message.push(x);
                message.append("\" is not an BeatPatternType");
                Err(message)
            },
        }
    }
}

impl FromSpecImpl<&BeatPatternType> for char {
    open spec fn obeys_from_spec() -> bool {
        true
    }

    open spec fn from_spec(v: &BeatPatternType) -> char {
        char_of(*v)
    }
}

impl From<&BeatPatternType> for char {
    fn from(beat_pattern: &BeatPatternType) -> (res: char) {
        match beat_pattern {
            BeatPatternType::Accent => '!',
            BeatPatternType::Beat => '+',
            BeatPatternType::Pause => '.',
        }
    }
}

/// Metronome beat pattern
#[derive(Debug)]
pub struct BeatPattern(pub Vec<BeatPatternType>);

impl Clone for BeatPattern {
    fn clone(&self) -> (res: Self)
        ensures
            res@ == self@,
    {
        let beats = self.0.clone();
        assert(beats@ =~= self@);
        BeatPattern(beats)
    }
}

impl View for BeatPattern {
    type V = Seq<BeatPatternType>;

    open spec fn view(&self) -> Seq<BeatPatternType> {
        self.0@
    }
}

/// Whether every character of a text stands for a beat.
pub open spec fn is_notation(text: Seq<char>) -> bool {
    forall|i: int| 0 <= i < text.len() ==> beat_of(#[trigger] text[i]) is Some
}

/// The beats that a text stands for, character by character.
pub open spec fn beats_of(text: Seq<char>) -> Seq<BeatPatternType> {
    Seq::new(text.len(), |i: int| beat_of(text[i])->0)
}

/// The text that beats are written as, character by character.
pub open spec fn notation_of(beats: Seq<BeatPatternType>) -> Seq<char> {
    Seq::new(beats.len(), |i: int| char_of(beats[i]))
}

/// Whether position `i` holds the first character of a text that stands for no beat.
pub open spec fn first_unknown(text: Seq<char>, i: int) -> bool {
    &&& 0 <= i < text.len()
    &&& beat_of(text[i]) is None
    &&& is_notation(text.take(i))
}

impl TryFromSpecImpl<&str> for BeatPattern {
    open spec fn obeys_try_from_spec() -> bool {
        false
    }

    open spec fn try_from_spec(v: &str) -> Result<Self, Self::Error> {
        arbitrary()
    }
}

impl TryFrom<&str> for BeatPattern {
    type Error = String;

    fn try_from(value: &str) -> (res: Result<Self, String>)
        ensures
            res is Ok <==> is_notation(value@),
            match res {
                Ok(pattern) => pattern@ == beats_of(value@),
                Err(message) => exists|i: int| #[trigger]
                    first_unknown(value@, i) && message@ == not_a_beat(value@[i]),
            },
    {
        let mut result: Vec<BeatPatternType> = Vec::new();
        for element in it: value.chars()
            invariant
                it.seq() == value@,
                result@.len() == it.index(),
                forall|i: int|
                    0 <= i < it.index() ==> beat_of(#[trigger] value@[i]) == Some(result@[i]),
        {
            match BeatPatternType::try_from(&element) {
                Ok(beat) => result.push(beat),
                Err(message) => {
                    assert(first_unknown(value@, it.index() as int));
                    return Err(message);
                },
            }
        }
        assert(result@ == beats_of(value@));
        Ok(BeatPattern(result))
    }
}

impl BeatPattern {
    /// The pattern in its notation, one character per beat.
    pub fn to_string(&self) -> (res: String)
        ensures
            res@ == notation_of(self@),
    {
        let mut res = String::new();
        for i in 0..self.0.len()
            invariant
                res@ == notation_of(self@.take(i as int)),
        {
            res.push(char::from(&self.0[i]));
            assert(notation_of(self@.take(i + 1)) == notation_of(self@.take(i as int)).push(
                char_of(self@[i as int]),
            ));
        }
        assert(self@.take(self@.len() as int) == self@);
        res
    }
}

/// The name of a beat.
pub open spec fn name_of(beat: BeatPatternType) -> Seq<char> {
    match beat {
        BeatPatternType::Accent => "Accent"@,
        BeatPatternType::Beat => "Beat"@,
        BeatPatternType::Pause => "Pause"@,
    }
}

/// The names of beats, separated by commas.
pub open spec fn names_of(beats: Seq<BeatPatternType>) -> Seq<char>
    decreases beats.len(),
{
    if beats.len() == 0 {
        Seq::empty()
    } else if beats.len() == 1 {
        name_of(beats[0])
    } else {
        names_of(beats.drop_last()) + ", "@ + name_of(beats.last())
    }
}

/// A pattern with its beats spelled out.
pub open spec fn spelled_out(beats: Seq<BeatPatternType>) -> Seq<char> {
    "BeatPattern(["@ + names_of(beats) + "])"@
}

impl BeatPattern {
    /// The pattern with its beats spelled out.
    pub fn spell_out(&self) -> (res: String)
        ensures
            res@ == spelled_out(self@),
    {
        let mut res = String::new();
        res.append("BeatPattern([");
        for i in 0..self.0.len()
            invariant
                res@ == "BeatPattern(["@ + names_of(self@.take(i as int)),
        {
            if i > 0 {
                res.append(", ");
            }
            match self.0[i] {
                BeatPatternType::Accent => res.append("Accent"),
                BeatPatternType::Beat => res.append("Beat"),
                BeatPatternType::Pause => res.append("Pause"),
            }
            assert(self@.take(i + 1).drop_last() =~= self@.take(i as int));
            assert(i == 0 ==> self@.take(1)[0] == self@[0]);
        }
        assert(self@.take(self@.len() as int) == self@);
        res.append("])");
        res
    }
}

/// Reading back what a pattern is written as gives the pattern.
pub proof fn law_notation_reads_back(beats: Seq<BeatPatternType>)
    ensures
        is_notation(notation_of(beats)),
        beats_of(notation_of(beats)) == beats,
{
    assert forall|i: int| 0 <= i < beats.len() implies beat_of(#[trigger] notation_of(beats)[i])
        == Some(beats[i]) by {}
    assert(beats_of(notation_of(beats)) =~= beats);
}

/// Writing down what a text was read as gives the text.
pub proof fn law_reading_writes_back(text: Seq<char>)
    requires
        is_notation(text),
    ensures
        notation_of(beats_of(text)) == text,
{
    assert forall|i: int| 0 <= i < text.len() implies notation_of(beats_of(text))[i] == text[i] by {
        assert(beat_of(text[i]) is Some);
    }
    assert(notation_of(beats_of(text)) =~= text);
}

} // verus!
