//! Building the texts that the table shows.

use vstd::prelude::*;

verus! {

/// The character of a decimal digit; anything that is no digit gives `'9'`.
pub open spec fn digit_char(digit: int) -> char {
    if digit == 0 {
        '0'
    } else if digit == 1 {
        '1'
    } else if digit == 2 {
        '2'
    } else if digit == 3 {
        '3'
    } else if digit == 4 {
        '4'
    } else if digit == 5 {
        '5'
    } else if digit == 6 {
        '6'
    } else if digit == 7 {
        '7'
    } else if digit == 8 {
        '8'
    } else {
        '9'
    }
}

/// A whole number written in decimal digits, without leading zeros, with a
/// minus sign in front if it is negative.
pub open spec fn decimal_text(number: int) -> Seq<char>
    decreases
            (if number < 0 {
                1 - number
            } else {
                number
            }),
{
    if number < 0 {
        seq!['-'] + decimal_text(-number)
    } else if number < 10 {
        seq![digit_char(number)]
    } else {
        decimal_text(number / 10).push(digit_char(number % 10))
    }
}

/// Appends `tail` to `text`, by `String::push_str` of the standard library:
/// the text afterwards is the text before, followed by `tail`.
#[verifier::external_body]
pub(crate) fn append(text: &mut String, tail: &str)
    ensures
        final(text)@ == old(text)@ + tail@,
{
    text.push_str(tail)
}

/// A decimal digit as a text of one character.
pub fn digit_text(digit: u8) -> (text: &'static str)
    requires
        digit < 10,
    ensures
        text@ == seq![digit_char(digit as int)],
{
    proof {
        reveal_strlit("0");
        reveal_strlit("1");
        reveal_strlit("2");
        reveal_strlit("3");
        reveal_strlit("4");
        reveal_strlit("5");
        reveal_strlit("6");
        reveal_strlit("7");
        reveal_strlit("8");
        reveal_strlit("9");
    }
    let text = if digit == 0 {
        "0"
    } else if digit == 1 {
        "1"
    } else if digit == 2 {
        "2"
    } else if digit == 3 {
        "3"
    } else if digit == 4 {
        "4"
    } else if digit == 5 {
        "5"
    } else if digit == 6 {
        "6"
    } else if digit == 7 {
        "7"
    } else if digit == 8 {
        "8"
    } else {
        "9"
    };
    assert(text@ =~= seq![digit_char(digit as int)]);
    text
}

/// Appends a number without sign, in decimal digits.
pub fn append_magnitude(text: &mut String, number: u64)
    ensures
        final(text)@ == old(text)@ + decimal_text(number as int),
    decreases number,
{
    if number >= 10 {
        append_magnitude(text, number / 10);
    }
    let ghost front = text@;
    append(text, digit_text((number % 10) as u8));
    proof {
        if number >= 10 {
            assert(front + seq![digit_char((number % 10) as int)] =~= old(text)@ + decimal_text(
                number as int,
            ));
        }
    }
}

/// Appends a number in decimal digits, with its sign if it is negative.
pub fn append_decimal(text: &mut String, number: i64)
    ensures
        final(text)@ == old(text)@ + decimal_text(number as int),
{
    if number < 0 {
        proof {
            reveal_strlit("-");
            assert("-"@ =~= seq!['-']);
        }
        append(text, "-");
        let ghost front = text@;
        append_magnitude(text, (-(number as i128)) as u64);
        proof {
            assert(front + decimal_text(-(number as int)) =~= old(text)@ + decimal_text(
                number as int,
            ));
        }
    } else {
        append_magnitude(text, number as u64);
    }
}

} // verus!
