//! Text, and numbers as text.

use vstd::prelude::*;

verus! {

/// `String::push` appends the given character to the end of the string.
pub assume_specification[ String::push ](s: &mut String, c: char)
    ensures
        final(s)@ == old(s)@.push(c),
;

/// The character of a decimal digit.
pub open spec fn digit(value: nat) -> char {
    seq!['0', '1', '2', '3', '4', '5', '6', '7', '8', '9'][value as int]
}

/// A number in decimal notation, without leading zeros.
pub open spec fn decimal(value: nat) -> Seq<char>
    decreases value,
{
    if value < 10 {
        seq![digit(value)]
    } else {
        decimal(value / 10).push(digit(value % 10))
    }
}

/// A text filled up with spaces on its left to a width, if it is shorter.
pub open spec fn right_aligned(text: Seq<char>, width: nat) -> Seq<char> {
    Seq::new(
        if text.len() < width {
            (width - text.len()) as nat
        } else {
            0
        },
        |i: int| ' ',
    ) + text
}

/// The text of a truth value.
pub open spec fn truth(value: bool) -> Seq<char> {
    if value {
        "true"@
    } else {
        "false"@
    }
}

/// A number in decimal notation.
pub fn decimal_text(value: u16) -> (res: String)
    ensures
        res@ == decimal(value as nat),
    decreases value,
{
    let mut res = if value < 10 {
        String::new()
    } else {
        decimal_text(value / 10)
    };
    let digits: [char; 10] = ['0', '1', '2', '3', '4', '5', '6', '7', '8', '9'];
    res.push(digits[(value % 10) as usize]);
    res
}

/// A text filled up with spaces on its left to a width, if it is shorter.
pub fn right_align(text: &str, width: usize) -> (res: String)
    ensures
        res@ == right_aligned(text@, width as nat),
{
    let mut res = String::new();
    let ghost spaces = (right_aligned(text@, width as nat).len() - text@.len()) as nat;
    let mut filled: usize = text.unicode_len();
    while filled < width
        invariant
            text@.len() <= filled,
            spaces == (if text@.len() < width {
                width - text@.len()
            } else {
                0
            }),
            res@.len() == filled - text@.len(),
            text@.len() < width ==> filled <= width,
            text@.len() >= width ==> filled == text@.len(),
            forall|i: int| 0 <= i < res@.len() ==> res@[i] == ' ',
        decreases width - filled,
    {
        res.push(' ');
        filled = filled + 1;
    }
    assert(res@ =~= Seq::new(spaces, |i: int| ' '));
    res.append(text);
    res
}

} // verus!
