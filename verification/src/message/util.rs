//! Shared helpers of the message codec: reading the text of a named child
//! element, and decimal conversion for the numeric fields.

use vstd::prelude::*;

use crate::message::error::ParseError;
use crate::message::xml::{spec_child_text, spec_find_child, str_eq, XmlElement};

verus! {

/// Reads the text of the child element with the given name; a missing
/// child, or one without text, is a `MissingElement` failure.
pub fn read_child_value<'a>(element: &'a XmlElement, name: &str) -> (r: Result<
    &'a String,
    ParseError,
>)
    ensures
        (spec_child_text(*element, name@) matches Some(t) ==> (r matches Ok(s) && s@ == t)),
        spec_child_text(*element, name@) is None ==> (r matches Err(e) && e matches
            ParseError::MissingElement { name: n } && n@ == name@),
{
    match element.get_child(name) {
        Some(child) => match &child.text {
            Some(t) => Ok(t),
            None => Err(ParseError::missing_element(name)),
        },
        None => Err(ParseError::missing_element(name)),
    }
}

/// The numeric value of a decimal digit, `None` for any other character.
pub open spec fn spec_digit(c: char) -> Option<nat> {
    if c == '0' {
        Some(0)
    } else if c == '1' {
        Some(1)
    } else if c == '2' {
        Some(2)
    } else if c == '3' {
        Some(3)
    } else if c == '4' {
        Some(4)
    } else if c == '5' {
        Some(5)
    } else if c == '6' {
        Some(6)
    } else if c == '7' {
        Some(7)
    } else if c == '8' {
        Some(8)
    } else if c == '9' {
        Some(9)
    } else {
        None
    }
}

/// The value of a string of decimal digits; `None` when the string is
/// empty or holds any non-digit.
pub open spec fn spec_digits_val(s: Seq<char>) -> Option<nat>
    decreases s.len(),
{
    if s.len() == 0 {
        None
    } else if s.len() == 1 {
        spec_digit(s[0])
    } else {
        match (spec_digits_val(s.take(s.len() - 1)), spec_digit(s.last())) {
            (Some(v), Some(d)) => Some(v * 10 + d),
            _ => None,
        }
    }
}

/// What `str::parse::<u32>` accepts: an optional leading `+`, then one or
/// more decimal digits, with a value that fits in a `u32`.
pub open spec fn spec_parse_u32(s: Seq<char>) -> Option<u32> {
    let body = if s.len() > 0 && s[0] == '+' {
        s.drop_first()
    } else {
        s
    };
    match spec_digits_val(body) {
        Some(v) => if v <= u32::MAX {
            Some(v as u32)
        } else {
            None
        },
        None => None,
    }
}

/// A digit string's value never shrinks as more digits are appended.
proof fn lemma_digits_val_grows(s: Seq<char>, i: int, j: int)
    requires
        0 < i <= j <= s.len(),
        spec_digits_val(s.take(i)) is Some,
    ensures
        spec_digits_val(s.take(j)) is None || spec_digits_val(s.take(j)).unwrap()
            >= spec_digits_val(s.take(i)).unwrap(),
    decreases j - i,
{
    if j > i {
        lemma_digits_val_grows(s, i, j - 1);
        assert(s.take(j).take(j - 1) =~= s.take(j - 1));
        assert(s.take(j).len() == j);
        if j - 1 > 0 {
            assert(spec_digits_val(s.take(j)) == match (
                spec_digits_val(s.take(j - 1)),
                spec_digit(s.take(j).last()),
            ) {
                (Some(v), Some(d)) => Some((v * 10 + d) as nat),
                _ => None,
            });
        }
    }
}

/// Parses the decimal value of a string as `str::parse::<u32>` does: an
/// optional leading `+` and at least one digit, rejecting anything else
/// and any value over `u32::MAX` with an `Int` failure.
pub fn parse_u32(s: &str) -> (r: Result<u32, ParseError>)
    ensures
        (spec_parse_u32(s@) matches Some(v) ==> r == Ok::<u32, ParseError>(v)),
        spec_parse_u32(s@) is None ==> r == Err::<u32, ParseError>(ParseError::Int),
{
    let len = s.unicode_len();
    let mut start: usize = 0;
    if len > 0 && s.get_char(0) == '+' {
        start = 1;
    }
    let ghost body = if s@.len() > 0 && s@[0] == '+' {
        s@.drop_first()
    } else {
        s@
    };
    proof {
        assert(body =~= s@.skip(start as int));
    }
    if start == len {
        proof {
            assert(body.len() == 0);
        }
        return Err(ParseError::Int);
    }
    let mut value: u32 = 0;
    let mut i: usize = start;
    while i < len
        invariant
            start <= i <= len,
            len == s@.len(),
            start == 0 || start == 1,
            start == 1 ==> s@.len() > 0 && s@[0] == '+',
            start == 0 ==> !(s@.len() > 0 && s@[0] == '+'),
            body == s@.skip(start as int),
            body == (if s@.len() > 0 && s@[0] == '+' {
                s@.drop_first()
            } else {
                s@
            }),
            i > start ==> spec_digits_val(body.take(i - start)) == Some(value as nat),
            i == start ==> value == 0,
        decreases len - i,
    {
        let c = s.get_char(i);
        let d: u32 = match c {
            '0' => 0,
            '1' => 1,
            '2' => 2,
            '3' => 3,
            '4' => 4,
            '5' => 5,
            '6' => 6,
            '7' => 7,
            '8' => 8,
            '9' => 9,
            _ => {
                proof {
                    assert(body[i - start] == s@[i as int]);
                    lemma_digits_val_none(body, i - start);
                    assert(spec_parse_u32(s@) is None);
                }
                return Err(ParseError::Int);
            },
        };
        proof {
            assert(body[i - start] == s@[i as int]);
            assert(spec_digit(body[i - start]) == Some(d as nat));
        }
        if value > 429496729 || (value == 429496729 && d > 5) {
            proof {
                lemma_digits_take_step(body, i - start + 1);
                assert(spec_digits_val(body.take(i - start + 1)) matches Some(v) && v
                    > u32::MAX);
                if i - start + 1 < body.len() {
                    lemma_digits_val_grows(body, i - start + 1, body.len() as int);
                }
                assert(body.take(body.len() as int) =~= body);
                assert(spec_parse_u32(s@) is None);
            }
            return Err(ParseError::Int);
        }
        proof {
            lemma_digits_take_step(body, i - start + 1);
        }
        value = value * 10 + d;
        i = i + 1;
    }
    proof {
        assert(body.take(body.len() as int) =~= body);
    }
    Ok(value)
}

/// Unfolds one step of `spec_digits_val` on a prefix.
proof fn lemma_digits_take_step(s: Seq<char>, j: int)
    requires
        0 < j <= s.len(),
    ensures
        j == 1 ==> spec_digits_val(s.take(j)) == spec_digit(s[0]),
        j > 1 ==> spec_digits_val(s.take(j)) == (match (
            spec_digits_val(s.take(j - 1)),
            spec_digit(s[j - 1]),
        ) {
            (Some(v), Some(d)) => Some((v * 10 + d) as nat),
            _ => None,
        }),
{
    assert(s.take(j).len() == j);
    if j > 1 {
        assert(s.take(j).take(j - 1) =~= s.take(j - 1));
        assert(s.take(j).last() == s[j - 1]);
    } else {
        assert(s.take(1)[0] == s[0]);
    }
}

/// The character of a decimal digit value below ten.
pub open spec fn spec_digit_char(d: nat) -> char {
    if d == 0 {
        '0'
    } else if d == 1 {
        '1'
    } else if d == 2 {
        '2'
    } else if d == 3 {
        '3'
    } else if d == 4 {
        '4'
    } else if d == 5 {
        '5'
    } else if d == 6 {
        '6'
    } else if d == 7 {
        '7'
    } else if d == 8 {
        '8'
    } else {
        '9'
    }
}

/// The decimal representation of a number, without sign or padding.
pub open spec fn spec_dec_str(n: nat) -> Seq<char>
    decreases n,
{
    if n < 10 {
        seq![spec_digit_char(n)]
    } else {
        spec_dec_str(n / 10).push(spec_digit_char(n % 10))
    }
}

/// The one-character string of a decimal digit value.
fn digit_str(d: usize) -> (r: &'static str)
    requires
        d < 10,
    ensures
        r@ =~= seq![spec_digit_char(d as nat)],
{
    let r: &'static str = match d {
        0 => "0",
        1 => "1",
        2 => "2",
        3 => "3",
        4 => "4",
        5 => "5",
        6 => "6",
        7 => "7",
        8 => "8",
        _ => "9",
    };
    proof {
        reveal_strlit("0");
        reveal_strlit("1");
        reveal_strlit("2");
        reveal_strlit("3");
        reveal_strlit("4");
        reveal_strlit("5");
        reveal_strlit("6");
        reveal_strlit("7");
        reveal_strlit("8");
        reveal_strlit("9");
    }
    r
}

/// Formats a number in decimal, as the unsigned integers' `Display`
/// does.
pub fn usize_to_string(n: usize) -> (r: String)
    ensures
        r@ == spec_dec_str(n as nat),
    decreases n,
{
    if n < 10 {
        let s = digit_str(n).to_owned();
        proof {
            assert(s@ =~= spec_dec_str(n as nat));
        }
        s
    } else {
        let mut s = usize_to_string(n / 10);
        s.append(digit_str(n % 10));
        proof {
            assert(s@ =~= spec_dec_str((n / 10) as nat).push(
                spec_digit_char((n % 10) as nat),
            ));
        }
        s
    }
}

/// A string with a non-digit anywhere has no digits value.
proof fn lemma_digits_val_none(s: Seq<char>, i: int)
    requires
        0 <= i < s.len(),
        spec_digit(s[i]) is None,
    ensures
        spec_digits_val(s) is None,
    decreases s.len(),
{
    if s.len() > 1 {
        if i == s.len() - 1 {
            assert(spec_digit(s.last()) is None);
        } else {
            assert(s.take(s.len() - 1)[i] == s[i]);
            lemma_digits_val_none(s.take(s.len() - 1), i);
        }
    }
}

} // verus!
