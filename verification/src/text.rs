//! Numbers and bytes as text, and text as numbers.

use vstd::prelude::*;
use vstd::string::StrSliceExecFns;
use vstd::string::StringExecFns;

verus! {

/// The character of a hex digit, in lower case.
pub open spec fn spec_hex_digit(digit: nat) -> char
    recommends
        digit < 16,
{
    if digit == 0 {
        '0'
    } else if digit == 1 {
        '1'
    } else if digit == 2 {
        '2'
    } else if digit == 3 {
        '3'
    } else if digit == 4 {
        '4'
    } else if digit == 5 {
        '5'
    } else if digit == 6 {
        '6'
    } else if digit == 7 {
        '7'
    } else if digit == 8 {
        '8'
    } else if digit == 9 {
        '9'
    } else if digit == 10 {
        'a'
    } else if digit == 11 {
        'b'
    } else if digit == 12 {
        'c'
    } else if digit == 13 {
        'd'
    } else if digit == 14 {
        'e'
    } else {
        'f'
    }
}

/// Two hex digits for every byte, the high one first.
pub open spec fn spec_hex_digits(bytes: Seq<u8>) -> Seq<char>
    decreases bytes.len(),
{
    if bytes.len() == 0 {
        Seq::<char>::empty()
    } else {
        spec_hex_digits(bytes.drop_last()).push(spec_hex_digit(bytes.last() as nat / 16)).push(
            spec_hex_digit(bytes.last() as nat % 16),
        )
    }
}

/// The most bytes that the hex encoder takes.
pub const HEX_MAX_BYTES: usize = 262_144;

/// Bytes as the hex encoder writes them: their hex digits, or a notice in
/// their place where there are too many.
pub open spec fn spec_to_hex(bytes: Seq<u8>) -> Seq<char> {
    if bytes.len() > HEX_MAX_BYTES {
        "**String to large**"@
    } else {
        spec_hex_digits(bytes)
    }
}

/// A byte in hex without a leading zero: one digit below 16, else two.
pub open spec fn spec_lower_hex(value: u8) -> Seq<char> {
    if value < 16 {
        seq![spec_hex_digit(value as nat)]
    } else {
        seq![spec_hex_digit(value as nat / 16), spec_hex_digit(value as nat % 16)]
    }
}

/// The character of a decimal digit.
pub open spec fn spec_digit_char(digit: nat) -> char
    recommends
        digit < 10,
{
    if digit == 0 {
        '0'
    } else if digit == 1 {
        '1'
    } else if digit == 2 {
        '2'
    } else if digit == 3 {
        '3'
    } else if digit == 4 {
        '4'
    } else if digit == 5 {
        '5'
    } else if digit == 6 {
        '6'
    } else if digit == 7 {
        '7'
    } else if digit == 8 {
        '8'
    } else {
        '9'
    }
}

/// The decimal digit that a character stands for, if it is one.
pub open spec fn spec_digit_value(c: char) -> Option<nat> {
    if c == '0' {
        Some(0)
    } else if c == '1' {
        Some(1)
    } else if c == '2' {
        Some(2)
    } else if c == '3' {
        Some(3)
    } else if c == '4' {
        Some(4)
    } else if c == '5' {
        Some(5)
    } else if c == '6' {
        Some(6)
    } else if c == '7' {
        Some(7)
    } else if c == '8' {
        Some(8)
    } else if c == '9' {
        Some(9)
    } else {
        None
    }
}

/// A number in decimal: no sign, no leading zeros, `0` for zero.
pub open spec fn spec_decimal(value: nat) -> Seq<char>
    decreases value,
{
    if value < 10 {
        seq![spec_digit_char(value)]
    } else {
        spec_decimal(value / 10).push(spec_digit_char(value % 10))
    }
}

/// Whether every character is a decimal digit.
pub open spec fn spec_all_digits(text: Seq<char>) -> bool {
    forall|i: int| 0 <= i < text.len() ==> spec_digit_value(#[trigger] text[i]) is Some
}

/// The number that a string of decimal digits stands for.
pub open spec fn spec_decimal_value(digits: Seq<char>) -> nat
    decreases digits.len(),
{
    if digits.len() == 0 {
        0
    } else {
        spec_decimal_value(digits.drop_last()) * 10 + spec_digit_value(digits.last()).unwrap_or(0)
    }
}

/// The `u16` that a text stands for: an optional `+`, then at least one
/// decimal digit and nothing else, with a value that fits.
pub open spec fn spec_parse_u16(text: Seq<char>) -> Option<u16> {
    let digits = if text.len() > 0 && text[0] == '+' {
        text.skip(1)
    } else {
        text
    };
    if digits.len() > 0 && spec_all_digits(digits) && spec_decimal_value(digits) <= u16::MAX {
        Some(spec_decimal_value(digits) as u16)
    } else {
        None
    }
}

fn digit_str(digit: u8) -> (text: &'static str)
    requires
        digit < 10,
    ensures
        text@ == seq![spec_digit_char(digit as nat)],
{
    proof {
        reveal_strlit("0");
        reveal_strlit("1");
        reveal_strlit("2");
        reveal_strlit("3");
        reveal_strlit("4");
        reveal_strlit("5");
        reveal_strlit("6");
        reveal_strlit("7");
        reveal_strlit("8");
        reveal_strlit("9");
    }
    let text = match digit {
        0 => "0",
        1 => "1",
        2 => "2",
        3 => "3",
        4 => "4",
        5 => "5",
        6 => "6",
        7 => "7",
        8 => "8",
        _ => "9",
    };
    text
}

/// Writes a number in decimal.
pub fn decimal_string(value: u64) -> (text: String)
    ensures
        text@ == spec_decimal(value as nat),
{
    let mut digits: Vec<u8> = Vec::new();
    let mut rest = value;
    while rest >= 10
        invariant
            forall|i: int| 0 <= i < digits@.len() ==> #[trigger] digits@[i] < 10,
            spec_decimal(value as nat) == spec_decimal(rest as nat) + Seq::new(
                digits@.len(),
                |i: int| spec_digit_char(digits@[digits@.len() - 1 - i] as nat),
            ),
        decreases rest,
    {
        let digit = (rest % 10) as u8;
        digits.push(digit);
        rest = rest / 10;
    }
    let mut text = String::from_str(digit_str(rest as u8));
    let ghost tail = Seq::new(
        digits@.len(),
        |i: int| spec_digit_char(digits@[digits@.len() - 1 - i] as nat),
    );
    let mut i: usize = digits.len();
    while i > 0
        invariant
            i <= digits@.len(),
            forall|j: int| 0 <= j < digits@.len() ==> #[trigger] digits@[j] < 10,
            tail == Seq::new(
                digits@.len(),
                |k: int| spec_digit_char(digits@[digits@.len() - 1 - k] as nat),
            ),
            text@ == spec_decimal(rest as nat) + tail.subrange(0, digits@.len() - i),
        decreases i,
    {
        i -= 1;
        text.append(digit_str(digits[i]));
    }
    text
}

/// The digits of an ASCII character and of its byte are the same.
proof fn lemma_digit_of_byte(c: char)
    requires
        (c as u32) < 128,
    ensures
        spec_digit_value(c) is Some <==> 48 <= c as u8 <= 57,
        spec_digit_value(c) is Some ==> spec_digit_value(c)->0 == (c as u8) - 48,
{
}

/// A string of digits stands for at least as much as any of its prefixes.
proof fn lemma_prefix_value(digits: Seq<char>, count: int)
    requires
        0 <= count <= digits.len(),
    ensures
        spec_decimal_value(digits.subrange(0, count)) <= spec_decimal_value(digits),
    decreases digits.len() - count,
{
    if count < digits.len() {
        let longer = digits.subrange(0, count + 1);
        assert(longer.drop_last() =~= digits.subrange(0, count));
        lemma_prefix_value(digits, count + 1);
    } else {
        assert(digits.subrange(0, count) =~= digits);
    }
}

/// Reads a `u16` in decimal.
pub fn parse_u16(text: &str) -> (value: Option<u16>)
    ensures
        value == spec_parse_u16(text@),
{
    let ghost digits = if text@.len() > 0 && text@[0] == '+' {
        text@.skip(1)
    } else {
        text@
    };
    if !text.is_ascii() {
        proof {
            if digits.len() > 0 && spec_all_digits(digits) {
                assert forall|i: int| 0 <= i < text@.len() implies '\0' <= #[trigger] text@[i]
                    <= '\u{7f}' by {
                    if text@.len() > 0 && text@[0] == '+' && i > 0 {
                        assert(spec_digit_value(digits[i - 1]) is Some);
                    }
                }
            }
        }
        return None;
    }
    let length = text.unicode_len();
    let start: usize = if length > 0 && text.get_ascii(0) == 43u8 {
        1
    } else {
        0
    };
    if start == length {
        return None;
    }
    let mut value: u32 = 0;
    let mut i: usize = start;
    while i < length
        invariant
            start <= i <= length,
            length == text@.len(),
            text.is_ascii(),
            digits == text@.skip(start as int),
            digits == (if text@.len() > 0 && text@[0] == '+' {
                text@.skip(1)
            } else {
                text@
            }),
            forall|j: int| 0 <= j < i - start ==> spec_digit_value(#[trigger] digits[j]) is Some,
            value == spec_decimal_value(digits.subrange(0, i - start)),
            value <= u16::MAX,
        decreases length - i,
    {
        let byte = text.get_ascii(i);
        proof {
            assert(digits[i - start] == text@[i as int]);
            lemma_digit_of_byte(text@[i as int]);
        }
        if byte < 48 || byte > 57 {
            return None;
        }
        let ghost longer = digits.subrange(0, i - start + 1);
        assert(longer.drop_last() =~= digits.subrange(0, i - start));
        value = value * 10 + (byte - 48) as u32;
        if value > 65535 {
            proof {
                lemma_prefix_value(digits, i - start + 1);
            }
            return None;
        }
        i += 1;
    }
    assert(digits.subrange(0, i - start) =~= digits);
    Some(value as u16)
}

fn hex_digit_str(digit: u8) -> (text: &'static str)
    requires
        digit < 16,
    ensures
        text@ == seq![spec_hex_digit(digit as nat)],
{
    if digit < 10 {
        digit_str(digit)
    } else {
        proof {
            reveal_strlit("a");
            reveal_strlit("b");
            reveal_strlit("c");
            reveal_strlit("d");
            reveal_strlit("e");
            reveal_strlit("f");
        }
        let text = match digit {
            10 => "a",
            11 => "b",
            12 => "c",
            13 => "d",
            14 => "e",
            _ => "f",
        };
        assert(text@ =~= seq![spec_hex_digit(digit as nat)]);
        text
    }
}

/// Writes bytes in hex, two lower-case digits for every byte. More bytes than
/// `HEX_MAX_BYTES` are not written; a notice stands in their place.
pub fn to_hex(bytes: &[u8]) -> (text: String)
    ensures
        text@ == spec_to_hex(bytes@),
{
    if bytes.len() > HEX_MAX_BYTES {
        return String::from_str("**String to large**");
    }
    let mut text = String::new();
    let mut i: usize = 0;
    assert(bytes@.subrange(0, 0) =~= Seq::<u8>::empty());
    while i < bytes.len()
        invariant
            i <= bytes@.len(),
            text@ == spec_hex_digits(bytes@.subrange(0, i as int)),
        decreases bytes@.len() - i,
    {
        let byte = bytes[i];
        proof {
            let next = bytes@.subrange(0, i + 1);
            assert(next.drop_last() =~= bytes@.subrange(0, i as int));
            assert(next.last() == byte);
        }
        text.append(hex_digit_str(byte / 16));
        text.append(hex_digit_str(byte % 16));
        i += 1;
    }
    assert(bytes@.subrange(0, i as int) =~= bytes@);
    text
}

/// Writes a byte in hex without a leading zero.
pub fn lower_hex(value: u8) -> (text: String)
    ensures
        text@ == spec_lower_hex(value),
{
    if value < 16 {
        String::from_str(hex_digit_str(value))
    } else {
        String::from_str(hex_digit_str(value / 16)).concat(hex_digit_str(value % 16))
    }
}

} // verus!
