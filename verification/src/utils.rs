//! The values that the server is started with, read from the text that its
//! configuration gives.

use crate::text::{begins_with, optional_str, optional_text, to_chars};
use vstd::prelude::*;

verus! {

/// Whether `c` is a decimal digit.
pub open spec fn is_digit(c: char) -> bool {
    '0' <= c <= '9'
}

/// Whether `text` holds decimal digits alone.
pub open spec fn all_digits(text: Seq<char>) -> bool {
    forall|i: int| 0 <= i < text.len() ==> is_digit(#[trigger] text[i])
}

/// The number that the decimal digits `digits` write.
pub open spec fn decimal_value(digits: Seq<char>) -> int
    decreases digits.len(),
{
    if digits.len() == 0 {
        0
    } else {
        decimal_value(digits.drop_last()) * 10 + (digits.last() as u32 - '0' as u32)
    }
}

/// The digits of `text`: what follows the plus sign that it may begin with.
pub open spec fn unsigned_digits(text: Seq<char>) -> Seq<char> {
    if begins_with(text, '+') {
        text.skip(1)
    } else {
        text
    }
}

/// The number that `text` writes, where it is one or more decimal digits
/// after at most one plus sign and the number is no more than `max`.
pub open spec fn parse_unsigned(text: Seq<char>, max: int) -> Option<int> {
    let digits = unsigned_digits(text);
    if digits.len() > 0 && all_digits(digits) && decimal_value(digits) <= max {
        Some(decimal_value(digits))
    } else {
        None
    }
}

/// More digits never write a smaller number.
proof fn lemma_decimal_grows(digits: Seq<char>, i: int)
    requires
        0 <= i <= digits.len(),
        all_digits(digits),
    ensures
        0 <= decimal_value(digits.take(i)) <= decimal_value(digits),
    decreases digits.len(),
{
    if digits.len() == 0 {
        assert(digits.take(i) =~= digits);
    } else if i == digits.len() {
        assert(digits.take(i) =~= digits);
        assert(is_digit(digits[digits.len() - 1]));
        lemma_decimal_grows(digits.drop_last(), i - 1);
    } else {
        assert(is_digit(digits[digits.len() - 1]));
        assert(digits.drop_last().take(i) =~= digits.take(i));
        lemma_decimal_grows(digits.drop_last(), i);
    }
}

/// The number that `text` writes in decimal digits, where it writes one that
/// is no more than `max`.
pub fn parse_number(text: &str, max: u64) -> (number: Option<u64>)
    ensures
        number matches Some(n) ==> parse_unsigned(text@, max as int) == Some(n as int),
        number is None ==> parse_unsigned(text@, max as int) is None,
{
    let chars = to_chars(text);
    let len: usize = chars.len();
    let start: usize = if len > 0 && chars[0] == '+' {
        1
    } else {
        0
    };
    let ghost digits = unsigned_digits(text@);
    assert(digits =~= text@.skip(start as int));
    if start == len {
        return None;
    }
    let mut value: u64 = 0;
    let mut i: usize = start;
    assert(digits.take(0) =~= Seq::<char>::empty());
    while i < len
        invariant
            start <= i <= len,
            len == text@.len(),
            chars@ == text@,
            digits == text@.skip(start as int),
            digits == unsigned_digits(text@),
            value <= max,
            value == decimal_value(digits.take(i - start)),
            all_digits(digits.take(i - start)),
        decreases len - i,
    {
        let c = chars[i];
        let ghost upto = digits.take(i - start + 1);
        assert(upto.drop_last() =~= digits.take(i - start));
        assert(upto.last() == c);
        assert(digits[i - start] == c);
        if c < '0' || c > '9' {
            assert(!is_digit(digits[i - start]));
            assert(!all_digits(digits));
            return None;
        }
        let digit: u64 = (c as u32 - '0' as u32) as u64;
        assert(all_digits(upto)) by {
            assert forall|j: int| 0 <= j < upto.len() implies is_digit(#[trigger] upto[j]) by {
                if j < upto.len() - 1 {
                    assert(upto[j] == digits.take(i - start)[j]);
                }
            }
        }
        if digit > max || value > (max - digit) / 10 {
            proof {
                assert(decimal_value(upto) == value * 10 + digit);
                assert(decimal_value(upto) > max);
                if all_digits(digits) {
                    lemma_decimal_grows(digits, i - start + 1);
                }
            }
            return None;
        }
        value = value * 10 + digit;
        i = i + 1;
    }
    assert(digits.take(len - start) =~= digits);
    Some(value)
}

/// The value of a setting: what is given for it, else its default, and
/// `None` where there is neither.
pub open spec fn or_default(value: Option<Seq<char>>, default: Option<Seq<char>>) -> Option<
    Seq<char>,
> {
    match value {
        Some(value) => Some(value),
        None => default,
    }
}

/// The value of a setting: what is configured for it, else its
/// default, and `None` where there is neither.
pub fn get_env_or_default(value: Option<String>, default: Option<&str>) -> (setting: Option<
    String,
>)
    ensures
        optional_text(setting) == or_default(optional_text(value), optional_str(default)),
{
    match value {
        Some(value) => Some(value),
        None => match default {
            Some(default) => Some(String::from_str(default)),
            None => None,
        },
    }
}

/// The text of a setting that has a default: what is configured, else
/// `default`.
pub open spec fn setting_text(configured: Option<Seq<char>>, default: Seq<char>) -> Seq<char> {
    match configured {
        Some(text) => text,
        None => default,
    }
}

/// The defaults write the numbers that they are meant to write.
proof fn lemma_default_port()
    ensures
        parse_unsigned("5000"@, u16::MAX as int) == Some(5000int),
{
    reveal_strlit("5000");
    let text = "5000"@;
    assert(text =~= seq!['5', '0', '0', '0']);
    assert(text.drop_last() =~= seq!['5', '0', '0']);
    assert(text.drop_last().drop_last() =~= seq!['5', '0']);
    assert(text.drop_last().drop_last().drop_last() =~= seq!['5']);
    assert(text.drop_last().drop_last().drop_last().drop_last() =~= Seq::<char>::empty());
    reveal_with_fuel(decimal_value, 5);
    assert(decimal_value(text) == 5000);
}

proof fn lemma_default_workers()
    ensures
        parse_unsigned("1"@, usize::MAX as int) == Some(1int),
{
    reveal_strlit("1");
    let text = "1"@;
    assert(text =~= seq!['1']);
    assert(text.drop_last() =~= Seq::<char>::empty());
    reveal_with_fuel(decimal_value, 2);
    assert(decimal_value(text) == 1);
}

/// The port to listen on: the number that `configured` writes, 5000 where
/// nothing is configured, and `None` where what is configured writes no port
/// number.
pub fn get_port(configured: Option<String>) -> (port: Option<u16>)
    ensures
        port matches Some(n) ==> parse_unsigned(
            setting_text(optional_text(configured), "5000"@),
            u16::MAX as int,
        ) == Some(n as int),
        port is None ==> parse_unsigned(
            setting_text(optional_text(configured), "5000"@),
            u16::MAX as int,
        ) is None,
        configured is None ==> port == Some(5000u16),
{
    proof {
        lemma_default_port();
    }
    let text = match get_env_or_default(configured, Some("5000")) {
        Some(text) => text,
        None => String::from_str("5000"),
    };
    match parse_number(text.as_str(), 0xffff) {
        Some(n) => Some(n as u16),
        None => None,
    }
}

/// The number of workers to run: the number that `configured` writes, one
/// where nothing is configured, and `None` where what is configured writes no
/// such number.
pub fn get_workers(configured: Option<String>) -> (workers: Option<usize>)
    ensures
        workers matches Some(n) ==> parse_unsigned(
            setting_text(optional_text(configured), "1"@),
            usize::MAX as int,
        ) == Some(n as int),
        workers is None ==> parse_unsigned(
            setting_text(optional_text(configured), "1"@),
            usize::MAX as int,
        ) is None,
        configured is None ==> workers == Some(1usize),
{
    proof {
        lemma_default_workers();
    }
    let text = match get_env_or_default(configured, Some("1")) {
        Some(text) => text,
        None => String::from_str("1"),
    };
    match parse_number(text.as_str(), usize::MAX as u64) {
        Some(n) => Some(n as usize),
        None => None,
    }
}

} // verus!
