//! Compact duration strings: a whole number followed by a unit, as in `15m`.
//!
//! The grammar is one or more decimal digits followed by one of `s`, `m` and
//! `h`. A string stands for that many seconds, minutes or hours.

use crate::time::{duration_nanos, duration_secs, lemma_from_secs, whole_seconds};
use std::time::Duration;
use vstd::prelude::*;
use vstd::string::*;
use vstd::utf8::is_ascii_chars;

verus! {

/// The error for a string that is not a duration.
#[derive(Debug, Clone, Copy, PartialEq, Eq)]
pub struct InvalidDuration;

impl InvalidDuration {
    /// The text that describes the error.
    pub fn message(&self) -> (text: String)
        ensures
            text@ == "Invalid duration format"@,
    {
        String::from_str("Invalid duration format")
    }
}

/// Seconds in a minute.
pub const SECS_PER_MINUTE: u64 = 60;

/// Seconds in an hour.
pub const SECS_PER_HOUR: u64 = 3600;

/// The ASCII code of the digit `0`.
const DIGIT_ZERO: u8 = 48;

/// The ASCII code of the digit `9`.
const DIGIT_NINE: u8 = 57;

/// The ASCII code of the unit letter `h`.
const LETTER_H: u8 = 104;

/// The ASCII code of the unit letter `m`.
const LETTER_M: u8 = 109;

/// The ASCII code of the unit letter `s`.
const LETTER_S: u8 = 115;

/// Whether `c` is one of the ten decimal digits.
pub open spec fn is_digit(c: char) -> bool {
    '0' <= c <= '9'
}

/// The number that a decimal digit stands for; 0 for any other character.
pub open spec fn digit_value(c: char) -> nat {
    if is_digit(c) {
        (c as int - '0' as int) as nat
    } else {
        0
    }
}

/// The character for a number below ten.
pub open spec fn digit_char(d: nat) -> char
    recommends
        d < 10,
{
    (d + '0' as nat) as char
}

/// Whether every character of `s` is a decimal digit.
pub open spec fn all_digits(s: Seq<char>) -> bool {
    forall|i: int| 0 <= i < s.len() ==> is_digit(#[trigger] s[i])
}

/// The number that a run of decimal digits writes, most significant first.
pub open spec fn decimal_value(s: Seq<char>) -> nat
    decreases s.len(),
{
    if s.len() == 0 {
        0
    } else {
        decimal_value(s.drop_last()) * 10 + digit_value(s.last())
    }
}

/// A number in decimal digits, without leading zeros.
pub open spec fn decimal_text(n: nat) -> Seq<char>
    decreases n,
{
    if n < 10 {
        seq![digit_char(n)]
    } else {
        decimal_text(n / 10).push(digit_char(n % 10))
    }
}

/// The number of seconds that a unit letter stands for.
pub open spec fn unit_seconds(c: char) -> Option<nat> {
    if c == 's' {
        Some(1)
    } else if c == 'm' {
        Some(SECS_PER_MINUTE as nat)
    } else if c == 'h' {
        Some(SECS_PER_HOUR as nat)
    } else {
        None
    }
}

/// The seconds that a duration string stands for. `None` where the string is
/// empty, ends in no unit letter, has no digits before the unit, has anything
/// but digits there, or stands for more seconds than a `u64` holds.
pub open spec fn parse_seconds(s: Seq<char>) -> Option<nat> {
    if s.len() >= 2 && unit_seconds(s.last()) is Some && all_digits(s.drop_last())
        && decimal_value(s.drop_last()) * unit_seconds(s.last())->Some_0 <= u64::MAX {
        Some(decimal_value(s.drop_last()) * unit_seconds(s.last())->Some_0)
    } else {
        None
    }
}

/// The duration string for a number of seconds, in the largest unit that
/// divides it: hours before minutes before seconds.
pub open spec fn format_seconds(secs: nat) -> Seq<char> {
    if secs % (SECS_PER_HOUR as nat) == 0 {
        decimal_text(secs / (SECS_PER_HOUR as nat)).push('h')
    } else if secs % (SECS_PER_MINUTE as nat) == 0 {
        decimal_text(secs / (SECS_PER_MINUTE as nat)).push('m')
    } else {
        decimal_text(secs).push('s')
    }
}

/// The digits of a longer prefix write a number that is no smaller.
pub proof fn lemma_decimal_value_grows(s: Seq<char>, shorter: int, longer: int)
    requires
        0 <= shorter <= longer <= s.len(),
    ensures
        decimal_value(s.take(shorter)) <= decimal_value(s.take(longer)),
    decreases longer - shorter,
{
    if shorter < longer {
        lemma_decimal_value_grows(s, shorter, longer - 1);
        assert(s.take(longer).drop_last() == s.take(longer - 1));
    }
}

/// Decimal text is made of digits, is not empty, and writes the number it was
/// made from.
pub proof fn lemma_decimal_text(n: nat)
    ensures
        decimal_text(n).len() >= 1,
        all_digits(decimal_text(n)),
        decimal_value(decimal_text(n)) == n,
    decreases n,
{
    if n < 10 {
        let text = decimal_text(n);
        assert(text.drop_last() == Seq::<char>::empty());
        assert(decimal_value(text.drop_last()) == 0);
    } else {
        lemma_decimal_text(n / 10);
        let text = decimal_text(n);
        assert(text.drop_last() == decimal_text(n / 10));
        assert(text.last() == digit_char(n % 10));
    }
}

/// Parsing undoes formatting: the string made for a number of seconds that a
/// `u64` holds stands for that number.
pub proof fn law_parse_inverts_format(secs: nat)
    requires
        secs <= u64::MAX,
    ensures
        parse_seconds(format_seconds(secs)) == Some(secs),
{
    let text = format_seconds(secs);
    if secs % 3600 == 0 {
        lemma_decimal_text(secs / 3600);
        assert(text.drop_last() == decimal_text(secs / 3600));
        assert(unit_seconds(text.last()) == Some(3600nat));
        assert(decimal_value(text.drop_last()) * 3600 == secs);
    } else if secs % 60 == 0 {
        lemma_decimal_text(secs / 60);
        assert(text.drop_last() == decimal_text(secs / 60));
        assert(unit_seconds(text.last()) == Some(60nat));
        assert(decimal_value(text.drop_last()) * 60 == secs);
    } else {
        lemma_decimal_text(secs);
        assert(text.drop_last() == decimal_text(secs));
        assert(unit_seconds(text.last()) == Some(1nat));
        assert(decimal_value(text.drop_last()) * 1 == secs);
    }
}

/// The one-letter string for a digit.
fn digit_str(d: u64) -> (text: &'static str)
    requires
        d < 10,
    ensures
        text@ == seq![digit_char(d as nat)],
{
    proof {
        reveal_strlit("0");
        reveal_strlit("1");
        reveal_strlit("2");
        reveal_strlit("3");
        reveal_strlit("4");
        reveal_strlit("5");
        reveal_strlit("6");
        reveal_strlit("7");
        reveal_strlit("8");
        reveal_strlit("9");
    }
    let text = if d == 0 {
        "0"
    } else if d == 1 {
        "1"
    } else if d == 2 {
        "2"
    } else if d == 3 {
        "3"
    } else if d == 4 {
        "4"
    } else if d == 5 {
        "5"
    } else if d == 6 {
        "6"
    } else if d == 7 {
        "7"
    } else if d == 8 {
        "8"
    } else {
        "9"
    };
    assert(text@ =~= seq![digit_char(d as nat)]);
    text
}

/// A number in decimal digits.
pub fn decimal_string(n: u64) -> (text: String)
    ensures
        text@ == decimal_text(n as nat),
    decreases n,
{
    if n < 10 {
        String::from_str(digit_str(n))
    } else {
        let mut text = decimal_string(n / 10);
        text.append(digit_str(n % 10));
        assert(text@ =~= decimal_text(n as nat));
        text
    }
}

/// Writes a duration as a duration string, in the largest unit that divides
/// its whole seconds: hours before minutes before seconds. A fraction of a
/// second is left out.
pub fn duration_to_string(duration: &Duration) -> (text: String)
    ensures
        text@ == format_seconds(duration_secs(*duration)),
{
    let secs: u64 = duration.as_secs();
    proof {
        reveal_strlit("h");
        reveal_strlit("m");
        reveal_strlit("s");
    }
    if secs % SECS_PER_HOUR == 0 {
        let mut text = decimal_string(secs / SECS_PER_HOUR);
        text.append("h");
        assert(text@ =~= format_seconds(secs as nat));
        text
    } else if secs % SECS_PER_MINUTE == 0 {
        let mut text = decimal_string(secs / SECS_PER_MINUTE);
        text.append("m");
        assert(text@ =~= format_seconds(secs as nat));
        text
    } else {
        let mut text = decimal_string(secs);
        text.append("s");
        assert(text@ =~= format_seconds(secs as nat));
        text
    }
}

/// Reads a duration string. It is an error, `InvalidDuration`, if and only if
/// the string stands for no number of seconds: see [`parse_seconds`].
pub fn string_to_duration(s: &str) -> (parsed: Result<Duration, InvalidDuration>)
    ensures
        match parsed {
            Ok(duration) => parse_seconds(s@) == Some(duration_secs(duration)) && whole_seconds(
                duration,
            ),
            Err(_) => parse_seconds(s@) is None,
        },
{
    if !s.is_ascii() {
        // Some character is neither a digit nor a unit letter.
        assert(parse_seconds(s@) is None) by {
            let i = choose|i: int| 0 <= i < s@.len() && !('\0' <= #[trigger] s@[i] <= '\u{7f}');
            if i < s@.len() - 1 {
                assert(s@.drop_last()[i] == s@[i]);
            }
        }
        return Err(InvalidDuration);
    }
    broadcast use vstd::string::is_ascii_spec_bytes;

    let bytes = s.as_bytes();
    let len: usize = bytes.len();
    assert(len == s@.len());
    if len < 2 {
        return Err(InvalidDuration);
    }
    let unit: u8 = bytes[len - 1];
    assert(unit == s@.last() as u8);
    let multiplier: u64 = if unit == LETTER_S {
        1
    } else if unit == LETTER_M {
        SECS_PER_MINUTE
    } else if unit == LETTER_H {
        SECS_PER_HOUR
    } else {
        return Err(InvalidDuration);
    };
    assert(unit_seconds(s@.last()) == Some(multiplier as nat));
    let ghost digits = s@.drop_last();
    let mut value: u64 = 0;
    let mut i: usize = 0;
    while i < len - 1
        invariant
            len == s@.len(),
            len >= 2,
            i <= len - 1,
            digits == s@.drop_last(),
            bytes@ == Seq::new(s@.len(), |k: int| s@[k] as u8),
            is_ascii_chars(s@),
            multiplier == 1 || multiplier == SECS_PER_MINUTE || multiplier == SECS_PER_HOUR,
            unit_seconds(s@.last()) == Some(multiplier as nat),
            all_digits(digits.take(i as int)),
            value == decimal_value(digits.take(i as int)),
        decreases len - i,
    {
        let byte: u8 = bytes[i];
        assert(byte == s@[i as int] as u8);
        assert(digits[i as int] == s@[i as int]);
        if byte < DIGIT_ZERO || byte > DIGIT_NINE {
            assert(!is_digit(digits[i as int]));
            return Err(InvalidDuration);
        }
        let digit: u64 = (byte - DIGIT_ZERO) as u64;
        assert(digit == digit_value(digits[i as int]));
        proof {
            // The digits read so far, this one included, write a number that
            // the whole run of digits can only exceed.
            assert(digits.take(i + 1).drop_last() == digits.take(i as int));
            assert(digits.take(i + 1).last() == digits[i as int]);
            assert(decimal_value(digits.take(i + 1)) == value * 10 + digit);
            lemma_decimal_value_grows(digits, i + 1, digits.len() as int);
            assert(digits.take(digits.len() as int) == digits);
            assert(decimal_value(digits) * multiplier >= decimal_value(digits))
                by (nonlinear_arith)
                requires
                    multiplier >= 1,
            ;
        }
        let tens = match value.checked_mul(10) {
            Some(tens) => tens,
            None => {
                return Err(InvalidDuration);
            },
        };
        value = match tens.checked_add(digit) {
            Some(sum) => sum,
            None => {
                return Err(InvalidDuration);
            },
        };
        i = i + 1;
    }
    assert(digits.take(i as int) == digits);
    match value.checked_mul(multiplier) {
        Some(secs) => {
            let duration = Duration::from_secs(secs);
            proof {
                lemma_from_secs(duration_nanos(duration), secs as nat);
            }
            Ok(duration)
        },
        None => Err(InvalidDuration),
    }
}

} // verus!
