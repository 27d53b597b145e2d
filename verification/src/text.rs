//! Decimal numbers as text, and text padded to a width: what the numeric
//! prefix of a command and the status line are made of.

use vstd::prelude::*;
use vstd::string::{StrSliceExecFns, StringExecFns};

verus! {

/// Whether `c` is one of the ten ASCII digits.
pub open spec fn is_digit(c: char) -> bool {
    '0' <= c <= '9'
}

/// The number that the digit `c` stands for.
pub open spec fn digit_value(c: char) -> nat
    recommends
        is_digit(c),
{
    (c as nat - '0' as nat) as nat
}

/// The digit that stands for `d`.
pub open spec fn digit_char(d: nat) -> char
    recommends
        d < 10,
{
    ('0' as nat + d) as char
}

/// Whether every character of `text` is a digit.
pub open spec fn all_digits(text: Seq<char>) -> bool {
    forall|i: int| 0 <= i < text.len() ==> is_digit(#[trigger] text[i])
}

/// Whether `text` is a number in decimal notation: one digit or more, and
/// nothing else.
pub open spec fn is_number(text: Seq<char>) -> bool {
    text.len() > 0 && all_digits(text)
}

/// The number that a sequence of digits denotes, most significant digit first.
/// Leading zeros are allowed; the empty sequence denotes zero.
pub open spec fn decimal_value(digits: Seq<char>) -> nat
    decreases digits.len(),
{
    if digits.len() == 0 {
        0
    } else {
        decimal_value(digits.drop_last()) * 10 + digit_value(digits.last())
    }
}

/// What reading `text` as a number of at most `max` gives: the number, or
/// nothing where `text` is no number or denotes more than `max`.
pub open spec fn parse_number(text: Seq<char>, max: nat) -> Option<nat> {
    if is_number(text) && decimal_value(text) <= max {
        Some(decimal_value(text))
    } else {
        None
    }
}

/// The decimal notation of `n`, without leading zeros.
pub open spec fn decimal_text(n: nat) -> Seq<char>
    decreases n,
{
    if n < 10 {
        seq![digit_char(n)]
    } else {
        decimal_text(n / 10).push(digit_char(n % 10))
    }
}

/// `count` spaces.
pub open spec fn spaces(count: nat) -> Seq<char> {
    Seq::new(count, |i: int| ' ')
}

/// `text` set flush left in a field of `width` characters: spaces fill it up on
/// the right, and a text longer than the field is left as it is.
pub open spec fn padded(text: Seq<char>, width: nat) -> Seq<char> {
    if text.len() < width {
        text + spaces((width - text.len()) as nat)
    } else {
        text
    }
}

/// Reads `text` as a decimal number of at most `max`.
pub fn parse_decimal(text: &Vec<char>, max: usize) -> (value: Option<usize>)
    ensures
        value == match parse_number(text@, max as nat) {
            Some(n) => Some(n as usize),
            None => None::<usize>,
        },
{
    if text.len() == 0 {
        return None;
    }
    let mut value: usize = 0;
    let mut too_large = false;
    let mut i: usize = 0;
    while i < text.len()
        invariant
            0 <= i <= text.len(),
            all_digits(text@.take(i as int)),
            !too_large ==> value == decimal_value(text@.take(i as int)) && value <= max,
            too_large ==> decimal_value(text@.take(i as int)) > max,
        decreases text.len() - i,
    {
        let c = text[i];
        proof {
            let longer = text@.take(i + 1);
            assert(longer.drop_last() =~= text@.take(i as int));
            assert(longer.last() == c);
        }
        if !(c >= '0' && c <= '9') {
            assert(!is_digit(text@[i as int]));
            return None;
        }
        let digit = (c as u32 - '0' as u32) as usize;
        if !too_large {
            let next = match value.checked_mul(10) {
                Some(tens) => tens.checked_add(digit),
                None => None,
            };
            match next {
                Some(n) => {
                    if n <= max {
                        value = n;
                    } else {
                        too_large = true;
                    }
                },
                None => {
                    too_large = true;
                },
            }
        }
        proof {
            let longer = text@.take(i + 1);
            assert forall|j: int| 0 <= j < longer.len() implies is_digit(#[trigger] longer[j]) by {
                if j < i {
                    assert(longer[j] == text@.take(i as int)[j]);
                }
            }
        }
        i = i + 1;
    }
    assert(text@.take(i as int) =~= text@);
    if too_large {
        None
    } else {
        Some(value)
    }
}

/// The digit that stands for `d`, as text.
fn digit_text(d: u8) -> (text: &'static str)
    requires
        d < 10,
    ensures
        text@ == seq![digit_char(d as nat)],
{
    proof {
        reveal_strlit("0");
        reveal_strlit("1");
        reveal_strlit("2");
        reveal_strlit("3");
        reveal_strlit("4");
        reveal_strlit("5");
        reveal_strlit("6");
        reveal_strlit("7");
        reveal_strlit("8");
        reveal_strlit("9");
    }
    let text = match d {
        0 => "0",
        1 => "1",
        2 => "2",
        3 => "3",
        4 => "4",
        5 => "5",
        6 => "6",
        7 => "7",
        8 => "8",
        _ => "9",
    };
    assert(text@ =~= seq![digit_char(d as nat)]);
    text
}

/// Appends the decimal notation of `n` to `out`.
pub fn push_decimal(out: &mut String, n: u128)
    ensures
        final(out)@ == old(out)@ + decimal_text(n as nat),
    decreases n,
{
    if n >= 10 {
        push_decimal(out, n / 10);
    }
    out.append(digit_text((n % 10) as u8));
    proof {
        let before = old(out)@;
        let digit = seq![digit_char((n % 10) as nat)];
        if n >= 10 {
            assert(decimal_text(n as nat) =~= decimal_text((n / 10) as nat) + digit);
            assert(before + decimal_text(n as nat) =~= (before + decimal_text((n / 10) as nat))
                + digit);
        } else {
            assert(decimal_text(n as nat) =~= digit);
        }
    }
}

/// Fills `out` up with spaces to `width` characters; a longer text stays as it
/// is.
pub fn pad_to_width(out: &mut String, width: usize)
    ensures
        final(out)@ == padded(old(out)@, width as nat),
{
    let mut length = out.as_str().unicode_len();
    while length < width
        invariant
            length == out@.len(),
            old(out)@.len() <= length,
            length <= width || length == old(out)@.len(),
            out@ == old(out)@ + spaces((length - old(out)@.len()) as nat),
        decreases width - length,
    {
        proof {
            reveal_strlit(" ");
        }
        out.append(" ");
        length = length + 1;
        proof {
            let before = old(out)@;
            assert(out@ =~= before + spaces((length - before.len()) as nat));
        }
    }
    proof {
        let before = old(out)@;
        if before.len() >= width {
            assert(out@ =~= before);
        }
    }
}

} // verus!
