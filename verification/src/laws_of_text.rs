//! What holds of patterns and numbers as text.
//!
//! Each law speaks of what a call comes back with.

use crate::pattern::{BeatPattern, BeatPatternType};
use crate::text::{decimal, decimal_text, right_align};
use vstd::prelude::*;

verus! {

/// `!` is read as an accent, `+` as a beat and `.` as a pause. Any other character is read
/// as nothing, and is named in the error.
pub proof fn law_character_is_read(c: char, res: Result<BeatPatternType, String>)
    requires
        call_ensures(<BeatPatternType as TryFrom<&char>>::try_from, (&c,), res),
    ensures
        c == '!' <==> (res matches Ok(beat) && beat is Accent),
        c == '+' <==> (res matches Ok(beat) && beat is Beat),
        c == '.' <==> (res matches Ok(beat) && beat is Pause),
        c != '!' && c != '+' && c != '.' ==> (res matches Err(message) && message@ == "char \""@
            + seq![c] + "\" is not an BeatPatternType"@),
{
}

/// An accent is written as `!`, a beat as `+` and a pause as `.`.
pub proof fn law_beat_is_written(beat: BeatPatternType, res: char)
    requires
        call_ensures(<char as From<&BeatPatternType>>::from, (&beat,), res),
    ensures
        res == '!' <==> beat is Accent,
        res == '+' <==> beat is Beat,
        res == '.' <==> beat is Pause,
{
}

/// A text is read if it holds nothing but `!`, `+` and `.`, and then each beat of the
/// pattern is the one of the character in its place.
pub proof fn law_text_is_read_in_order(text: &str, res: Result<BeatPattern, String>)
    requires
        call_ensures(<BeatPattern as TryFrom<&str>>::try_from, (text,), res),
    ensures
        res is Ok <==> (forall|i: int|
            0 <= i < text@.len() ==> #[trigger] text@[i] == '!' || text@[i] == '+' || text@[i]
                == '.'),
        res matches Ok(pattern) ==> {
            &&& pattern.0@.len() == text@.len()
            &&& forall|i: int|
                0 <= i < text@.len() ==> {
                    &&& #[trigger] pattern.0@[i] is Accent <==> text@[i] == '!'
                    &&& pattern.0@[i] is Beat <==> text@[i] == '+'
                    &&& pattern.0@[i] is Pause <==> text@[i] == '.'
                }
        },
{
    if forall|i: int|
        0 <= i < text@.len() ==> #[trigger] text@[i] == '!' || text@[i] == '+' || text@[i] == '.' {
        assert(forall|i: int|
            0 <= i < text@.len() ==> crate::pattern::beat_of(#[trigger] text@[i]) is Some);
    }
    if res is Ok {
        assert forall|i: int| 0 <= i < text@.len() implies #[trigger] text@[i] == '!' || text@[i]
            == '+' || text@[i] == '.' by {
            assert(crate::pattern::beat_of(text@[i]) is Some);
        }
        assert forall|i: int| 0 <= i < text@.len() implies {
            &&& #[trigger] res->Ok_0.0@[i] is Accent <==> text@[i] == '!'
            &&& res->Ok_0.0@[i] is Beat <==> text@[i] == '+'
            &&& res->Ok_0.0@[i] is Pause <==> text@[i] == '.'
        } by {
            assert(crate::pattern::beat_of(text@[i]) is Some);
            assert(res->Ok_0.0@[i] == crate::pattern::beats_of(text@)[i]);
        }
    }
}

/// A text that is not read is refused for its first character that is none of `!`, `+` and
/// `.`, whichever comes behind it.
pub proof fn law_first_unknown_character_is_named(
    text: &str,
    res: Result<BeatPattern, String>,
    place: int,
)
    requires
        call_ensures(<BeatPattern as TryFrom<&str>>::try_from, (text,), res),
        0 <= place < text@.len(),
        text@[place] != '!' && text@[place] != '+' && text@[place] != '.',
        forall|i: int|
            0 <= i < place ==> #[trigger] text@[i] == '!' || text@[i] == '+' || text@[i] == '.',
    ensures
        res matches Err(message) && message@ == "char \""@ + seq![text@[place]]
            + "\" is not an BeatPatternType"@,
{
    assert(crate::pattern::beat_of(text@[place]) is None);
    let message = res->Err_0;
    let i = choose|i: int| #[trigger]
        crate::pattern::first_unknown(text@, i) && message@ == crate::pattern::not_a_beat(text@[i]);
    if i < place {
        assert(text@[i] == '!' || text@[i] == '+' || text@[i] == '.');
    } else if i > place {
        assert(text@.take(i)[place] == text@[place]);
    }
}

/// A pattern is written in order: each character is the one of the beat in its place.
pub proof fn law_pattern_is_written_in_order(pattern: &BeatPattern, res: String)
    requires
        call_ensures(BeatPattern::to_string, (pattern,), res),
    ensures
        res@.len() == pattern.0@.len(),
        forall|i: int|
            0 <= i < pattern.0@.len() ==> {
                &&& #[trigger] res@[i] == '!' <==> pattern.0@[i] is Accent
                &&& res@[i] == '+' <==> pattern.0@[i] is Beat
                &&& res@[i] == '.' <==> pattern.0@[i] is Pause
            },
{
}

/// Reading what a pattern was written as gives its beats again, whatever they are.
pub proof fn law_written_pattern_is_read_back(
    pattern: &BeatPattern,
    written: String,
    text: &str,
    res: Result<BeatPattern, String>,
)
    requires
        call_ensures(BeatPattern::to_string, (pattern,), written),
        text@ == written@,
        call_ensures(<BeatPattern as TryFrom<&str>>::try_from, (text,), res),
    ensures
        res matches Ok(read) && read.0@ == pattern.0@,
{
    law_pattern_is_written_in_order(pattern, written);
    law_text_is_read_in_order(text, res);
    assert forall|i: int| 0 <= i < text@.len() implies #[trigger] text@[i] == '!' || text@[i] == '+'
        || text@[i] == '.' by {
        assert(written@[i] == text@[i]);
    }
    assert(res->Ok_0.0@ =~= pattern.0@) by {
        assert forall|i: int| 0 <= i < text@.len() implies #[trigger] res->Ok_0.0@[i]
            == pattern.0@[i] by {
            assert(written@[i] == text@[i]);
        }
    }
}

/// Writing a pattern that was read gives the text again.
pub proof fn law_read_text_is_written_back(
    text: &str,
    pattern: BeatPattern,
    written: String,
)
    requires
        call_ensures(<BeatPattern as TryFrom<&str>>::try_from, (text,), Ok(pattern)),
        call_ensures(BeatPattern::to_string, (&pattern,), written),
    ensures
        written@ == text@,
{
    law_text_is_read_in_order(text, Ok(pattern));
    law_pattern_is_written_in_order(&pattern, written);
    assert forall|i: int| 0 <= i < text@.len() implies #[trigger] written@[i] == text@[i] by {
        assert(pattern.0@[i] is Accent <==> text@[i] == '!');
        assert(text@[i] == '!' || text@[i] == '+' || text@[i] == '.');
    }
    assert(written@ =~= text@);
}

/// Spelled out, a pattern without beats is an empty list.
pub proof fn law_empty_pattern_is_spelled_out(pattern: &BeatPattern, res: String)
    requires
        call_ensures(BeatPattern::spell_out, (pattern,), res),
        pattern.0@.len() == 0,
    ensures
        res@ == "BeatPattern(["@ + "])"@,
{
}

/// Spelled out, a pattern with a beat more is the list with that beat's name at its end,
/// behind a comma unless it is the first.
pub proof fn law_patterns_are_spelled_out_beat_by_beat(
    pattern: &BeatPattern,
    beat: BeatPatternType,
    longer: &BeatPattern,
    list: Seq<char>,
    res: String,
    longer_res: String,
)
    requires
        call_ensures(BeatPattern::spell_out, (pattern,), res),
        call_ensures(BeatPattern::spell_out, (longer,), longer_res),
        longer.0@ == pattern.0@.push(beat),
        res@ == "BeatPattern(["@ + list + "])"@,
    ensures
        longer_res@ == "BeatPattern(["@ + list + (if pattern.0@.len() == 0 {
            Seq::empty()
        } else {
            ", "@
        }) + (match beat {
            BeatPatternType::Accent => "Accent"@,
            BeatPatternType::Beat => "Beat"@,
            BeatPatternType::Pause => "Pause"@,
        }) + "])"@,
{
    let names = crate::pattern::names_of(pattern.0@);
    let start = "BeatPattern(["@;
    let end = "])"@;
    assert(names =~= res@.subrange(start.len() as int, res@.len() - end.len()));
    assert(list =~= res@.subrange(start.len() as int, res@.len() - end.len()));
    assert(longer.0@.drop_last() =~= pattern.0@);
    assert(longer.0@.last() == beat);
    let name = match beat {
        BeatPatternType::Accent => "Accent"@,
        BeatPatternType::Beat => "Beat"@,
        BeatPatternType::Pause => "Pause"@,
    };
    if pattern.0@.len() == 0 {
        assert(list.len() == 0);
        assert(longer_res@ =~= start + list + Seq::<char>::empty() + name + end);
    } else {
        assert(longer_res@ =~= start + list + ", "@ + name + end);
    }
}

/// A copy of a pattern has the same beats.
pub proof fn law_copy_has_the_same_beats(pattern: &BeatPattern, res: BeatPattern)
    requires
        call_ensures(<BeatPattern as Clone>::clone, (pattern,), res),
    ensures
        res.0@ == pattern.0@,
{
}

/// The number that a row of decimal digits stands for.
pub open spec fn number_of(digits: Seq<char>) -> int
    decreases digits.len(),
{
    if digits.len() == 0 {
        0
    } else {
        10 * number_of(digits.drop_last()) + (digits.last() as int - '0' as int)
    }
}

/// A number is written as digits that stand for it, the first of which is no zero unless it
/// is the only one.
pub proof fn law_decimal_text_stands_for_the_number(value: u16, res: String)
    requires
        call_ensures(decimal_text, (value,), res),
    ensures
        number_of(res@) == value,
        res@.len() > 0,
        forall|i: int| 0 <= i < res@.len() ==> '0' <= #[trigger] res@[i] <= '9',
        res@.len() > 1 ==> res@[0] != '0',
{
    lemma_decimal(value as nat);
}

proof fn lemma_decimal(value: nat)
    ensures
        number_of(decimal(value)) == value,
        decimal(value).len() > 0,
        forall|i: int| 0 <= i < decimal(value).len() ==> '0' <= #[trigger] decimal(value)[i] <= '9',
        value > 0 ==> decimal(value)[0] != '0',
        decimal(value).len() > 1 ==> value > 0,
    decreases value,
{
    reveal_with_fuel(number_of, 2);
    let text = decimal(value);
    if value >= 10 {
        lemma_decimal(value / 10);
        assert(text.drop_last() =~= decimal(value / 10));
    } else {
        assert(text.drop_last() =~= Seq::empty());
    }
}

/// Aligned to the right, a text keeps its characters, has spaces ahead of them, and is as
/// long as the width if it was not longer before.
pub proof fn law_right_aligned_text_ends_with_the_text(text: &str, width: usize, res: String)
    requires
        call_ensures(right_align, (text, width), res),
    ensures
        res@.len() == (if text@.len() < width {
            width as nat
        } else {
            text@.len()
        }),
        res@.skip(res@.len() - text@.len()) == text@,
        forall|i: int| 0 <= i < res@.len() - text@.len() ==> #[trigger] res@[i] == ' ',
{
    assert(res@.skip(res@.len() - text@.len()) =~= text@);
}

} // verus!
