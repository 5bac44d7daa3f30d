//! Number literals of the shader assembler.

use vstd::prelude::*;
use super::lexer::Token;
use crate::text::str_chars;

verus! {

/// How far a number literal has been read.
#[derive(Clone, Debug, Copy, PartialEq, Eq, Structural)]
pub enum NumberParseMode {
    Empty,
    Decimal,
    ZeroStart,
    HexadecimalStart,
    Hexadecimal,
    OctalStart,
    Octal,
    BinaryStart,
    Binary,
}

/// A number literal's value: an integer, or the bit pattern of an `f32`.
#[derive(Clone, Debug, Copy, PartialEq, Eq, Structural)]
pub enum NumberParse {
    Integer(i64),
    Float(u32),
}

/// The value of the decimal digit `c`.
pub open spec fn digit_value(c: char) -> u64 {
    (c as u32 - '0' as u32) as u64
}

/// `bits` shifted left by `k` bits with `d` in the bits that come free.
pub open spec fn shift_in(bits: u64, k: u64, d: u64) -> u64 {
    ((bits << k) as int + d) as u64
}

/// One more character of a literal: the next mode and value (as the bits of an `i64`), or
/// `None` where the character cannot stand there. A decimal digit replaces the value; after
/// `0x`, `0o` and `0b` digits are shifted in, and a binary literal goes on in octal after its
/// first digit.
pub open spec fn spec_number_step(mode: NumberParseMode, bits: u64, c: char) -> Option<(NumberParseMode, u64)> {
    match mode {
        NumberParseMode::Empty =>
            if c == '0' { Some((NumberParseMode::ZeroStart, bits)) }
            else if '1' <= c <= '9' { Some((NumberParseMode::Decimal, digit_value(c))) }
            else { None },
        NumberParseMode::ZeroStart | NumberParseMode::Decimal =>
            if '0' <= c <= '9' { Some((NumberParseMode::Decimal, digit_value(c))) }
            else if mode == NumberParseMode::ZeroStart && (c == 'x' || c == 'X') { Some((NumberParseMode::HexadecimalStart, bits)) }
            else if mode == NumberParseMode::ZeroStart && (c == 'o' || c == 'O') { Some((NumberParseMode::OctalStart, bits)) }
            else if mode == NumberParseMode::ZeroStart && (c == 'b' || c == 'B') { Some((NumberParseMode::BinaryStart, bits)) }
            else { None },
        NumberParseMode::HexadecimalStart | NumberParseMode::Hexadecimal =>
            if '0' <= c <= '9' { Some((NumberParseMode::Hexadecimal, shift_in(bits, 4, digit_value(c)))) }
            else if 'a' <= c <= 'f' { Some((NumberParseMode::Hexadecimal, shift_in(bits, 4, (c as u32 - 'a' as u32 + 10) as u64))) }
            else if 'A' <= c <= 'F' { Some((NumberParseMode::Hexadecimal, shift_in(bits, 4, (c as u32 - 'A' as u32 + 10) as u64))) }
            else { None },
        NumberParseMode::OctalStart | NumberParseMode::Octal =>
            if '0' <= c <= '7' { Some((NumberParseMode::Octal, shift_in(bits, 3, digit_value(c)))) }
            else { None },
        NumberParseMode::BinaryStart | NumberParseMode::Binary =>
            if '0' <= c <= '1' { Some((NumberParseMode::Octal, shift_in(bits, 1, digit_value(c)))) }
            else { None },
    }
}

/// The mode and value after reading all of `s`, or `None` if a character cannot stand
/// where it is.
pub open spec fn spec_number_scan(s: Seq<char>) -> Option<(NumberParseMode, u64)>
    decreases s.len(),
{
    if s.len() == 0 {
        Some((NumberParseMode::Empty, 0u64))
    } else {
        match spec_number_scan(s.drop_last()) {
            None => None,
            Some((mode, bits)) => spec_number_step(mode, bits, s.last()),
        }
    }
}

/// The value of the literal `s`, or `None` where it is not one: a character out of place,
/// nothing at all, or a prefix without digits. A lone `0` is 0.
pub open spec fn spec_parse_number(s: Seq<char>) -> Option<NumberParse> {
    match spec_number_scan(s) {
        None => None,
        Some((mode, bits)) => match mode {
            NumberParseMode::Empty | NumberParseMode::BinaryStart | NumberParseMode::HexadecimalStart
            | NumberParseMode::OctalStart => None,
            NumberParseMode::ZeroStart => Some(NumberParse::Integer(0)),
            _ => Some(NumberParse::Integer(bits as i64)),
        },
    }
}

/// A literal that reads to the end reads through each of its beginnings.
proof fn lemma_scan_prefix(s: Seq<char>, i: int)
    requires
        0 <= i <= s.len(),
        spec_number_scan(s) is Some,
    ensures
        spec_number_scan(s.take(i)) is Some,
    decreases s.len() - i,
{
    if i < s.len() {
        assert(s.drop_last() =~= s.take(s.len() - 1));
        lemma_scan_prefix(s.drop_last(), i);
        assert(s.drop_last().take(i) =~= s.take(i));
    } else {
        assert(s.take(i) =~= s);
    }
}

/// `bits` shifted left by `k` bits with `d` in the bits that come free.
fn shift_in_exec(bits: u64, k: u64, d: u64) -> (r: u64)
    requires
        (k == 4 && d < 16) || (k == 3 && d < 8) || (k == 1 && d < 2),
    ensures
        r == shift_in(bits, k, d),
{
    assert((bits << k) as int + d <= u64::MAX) by (bit_vector)
        requires
            (k == 4 && d < 16) || (k == 3 && d < 8) || (k == 1 && d < 2);
    (bits << k) + d
}

/// One more character of a literal (see `spec_number_step`).
fn number_step(mode: NumberParseMode, bits: u64, c: char) -> (r: Option<(NumberParseMode, u64)>)
    ensures
        r == spec_number_step(mode, bits, c),
{
    match mode {
        NumberParseMode::Empty => {
            if c == '0' {
                Some((NumberParseMode::ZeroStart, bits))
            } else if '1' <= c && c <= '9' {
                Some((NumberParseMode::Decimal, (c as u32 - '0' as u32) as u64))
            } else {
                None
            }
        },
        NumberParseMode::ZeroStart | NumberParseMode::Decimal => {
            let zero = match mode {
                NumberParseMode::ZeroStart => true,
                _ => false,
            };
            if '0' <= c && c <= '9' {
                Some((NumberParseMode::Decimal, (c as u32 - '0' as u32) as u64))
            } else if zero && (c == 'x' || c == 'X') {
                Some((NumberParseMode::HexadecimalStart, bits))
            } else if zero && (c == 'o' || c == 'O') {
                Some((NumberParseMode::OctalStart, bits))
            } else if zero && (c == 'b' || c == 'B') {
                Some((NumberParseMode::BinaryStart, bits))
            } else {
                None
            }
        },
        NumberParseMode::HexadecimalStart | NumberParseMode::Hexadecimal => {
            let d: u64 = if '0' <= c && c <= '9' {
                (c as u32 - '0' as u32) as u64
            } else if 'a' <= c && c <= 'f' {
                (c as u32 - 'a' as u32 + 10) as u64
            } else if 'A' <= c && c <= 'F' {
                (c as u32 - 'A' as u32 + 10) as u64
            } else {
                return None;
            };
            Some((NumberParseMode::Hexadecimal, shift_in_exec(bits, 4, d)))
        },
        NumberParseMode::OctalStart | NumberParseMode::Octal => {
            if '0' <= c && c <= '7' {
                let d = (c as u32 - '0' as u32) as u64;
                Some((NumberParseMode::Octal, shift_in_exec(bits, 3, d)))
            } else {
                None
            }
        },
        NumberParseMode::BinaryStart | NumberParseMode::Binary => {
            if '0' <= c && c <= '1' {
                let d = (c as u32 - '0' as u32) as u64;
                Some((NumberParseMode::Octal, shift_in_exec(bits, 1, d)))
            } else {
                None
            }
        },
    }
}

/// The value of a number token (see `spec_parse_number`).
pub fn parse_number(token: &Token) -> (r: NumberParse)
    requires
        token.value is Some,
        spec_parse_number(token.value->Some_0@) is Some,
    ensures
        Some(r) == spec_parse_number(token.value->Some_0@),
{
    let text = match &token.value {
        Some(value) => value,
        None => {
            assert(false);
            return NumberParse::Integer(0);
        },
    };
    let chars = str_chars(text.as_str());
    let ghost s = text@;
    let mut mode = NumberParseMode::Empty;
    let mut bits: u64 = 0;
    let mut i: usize = 0;
    while i < chars.len()
        invariant
            chars@ == s,
            spec_number_scan(s) is Some,
            i <= s.len(),
            spec_number_scan(s.take(i as int)) == Some((mode, bits)),
        decreases s.len() - i,
    {
        proof {
            lemma_scan_prefix(s, i + 1);
            assert(s.take(i + 1).drop_last() =~= s.take(i as int));
        }
        match number_step(mode, bits, chars[i]) {
            Some((m, b)) => {
                mode = m;
                bits = b;
            },
            None => {
                assert(false);
                return NumberParse::Integer(0);
            },
        }
        i = i + 1;
    }
    assert(s.take(s.len() as int) =~= s);
    match mode {
        NumberParseMode::ZeroStart => NumberParse::Integer(0),
        _ => NumberParse::Integer(bits as i64),
    }
}

} // verus!
