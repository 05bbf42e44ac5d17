//! Parsing of the 16-bit device identifiers from configuration input.
//!
//! An identifier may be given in decimal (`1155`) or, with a `0x` prefix,
//! in hexadecimal (`0x0483`). Hex digits of either case are accepted, as is
//! one leading `+` before the digits; every leading `0x` pair is stripped
//! before the hexadecimal digits are read.

use vstd::prelude::*;

verus! {

/// Why a string could not be parsed as a 16-bit identifier.
#[derive(Clone, Copy, PartialEq, Eq, Structural, Debug)]
pub enum ParseError {
    /// The input was empty.
    Empty,
    /// A character was not a digit of the selected radix (or digits were
    /// missing after a sign or after the `0x` prefix).
    InvalidDigit,
    /// The digits denote a number larger than `u16::MAX`.
    Overflow,
}

/// The value of `c` as a digit of the given radix, if it is one.
/// Decimal digits and hex digits of either case are recognized.
pub open spec fn digit_value(c: char, radix: u32) -> Option<u32> {
    let u = c as u32;
    let v: u32 = if '0' as u32 <= u && u <= '9' as u32 {
        (u - ('0' as u32)) as u32
    } else if 'a' as u32 <= u && u <= 'f' as u32 {
        (u - ('a' as u32) + 10) as u32
    } else if 'A' as u32 <= u && u <= 'F' as u32 {
        (u - ('A' as u32) + 10) as u32
    } else {
        255u32
    };
    if v < radix {
        Option::Some(v)
    } else {
        Option::None
    }
}

/// Folds the digits of `s` onto the accumulator `acc`, left to right,
/// failing at the first character that is no digit of the radix and at the
/// first intermediate value above `u16::MAX` — in exactly that order per
/// character, as the standard library's string-to-integer parsing does.
pub open spec fn spec_parse_digits(s: Seq<char>, radix: u32, acc: u16) -> Result<u16, ParseError>
    decreases s.len(),
{
    if s.len() == 0 {
        Ok(acc)
    } else {
        match digit_value(s[0], radix) {
            Option::None => Err(ParseError::InvalidDigit),
            Option::Some(d) => if acc * radix + d > 65535 {
                Err(ParseError::Overflow)
            } else {
                spec_parse_digits(s.skip(1), radix, (acc * radix + d) as u16)
            },
        }
    }
}

/// The 16-bit value denoted by `s` in the given radix: one optional
/// leading `+`, then one or more digits. Empty input is [`ParseError::Empty`];
/// a lone sign is [`ParseError::InvalidDigit`].
pub open spec fn spec_parse_u16_radix(s: Seq<char>, radix: u32) -> Result<u16, ParseError> {
    if s.len() == 0 {
        Err(ParseError::Empty)
    } else {
        let body = if s[0] == '+' {
            s.skip(1)
        } else {
            s
        };
        if body.len() == 0 {
            Err(ParseError::InvalidDigit)
        } else {
            spec_parse_digits(body, radix, 0u16)
        }
    }
}

/// `s` with every leading `0x` pair removed.
pub open spec fn strip_hex_prefixes(s: Seq<char>) -> Seq<char>
    decreases s.len(),
{
    if s.len() >= 2 && s[0] == '0' && s[1] == 'x' {
        strip_hex_prefixes(s.skip(2))
    } else {
        s
    }
}

/// The identifier denoted by `s`: hexadecimal after a `0x` prefix (with
/// all leading `0x` pairs stripped), decimal otherwise.
pub open spec fn spec_parse_hex_or_dec(s: Seq<char>) -> Result<u16, ParseError> {
    if s.len() >= 2 && s[0] == '0' && s[1] == 'x' {
        spec_parse_u16_radix(strip_hex_prefixes(s), 16)
    } else {
        spec_parse_u16_radix(s, 10)
    }
}

/// The value of `c` as a digit of the given radix, if it is one.
fn digit_of(c: char, radix: u32) -> (r: Option<u32>)
    requires
        radix == 10 || radix == 16,
    ensures
        r == digit_value(c, radix),
{
    let u = c as u32;
    let v: u32 = if '0' as u32 <= u && u <= '9' as u32 {
        u - ('0' as u32)
    } else if 'a' as u32 <= u && u <= 'f' as u32 {
        u - ('a' as u32) + 10
    } else if 'A' as u32 <= u && u <= 'F' as u32 {
        u - ('A' as u32) + 10
    } else {
        255
    };
    if v < radix {
        Some(v)
    } else {
        None
    }
}

/// Parses the characters of `src` from position `start` on as a 16-bit
/// value in the given radix.
fn parse_u16_radix(src: &str, start: usize, radix: u32) -> (r: Result<u16, ParseError>)
    requires
        start <= src@.len(),
        radix == 10 || radix == 16,
    ensures
        r == spec_parse_u16_radix(src@.skip(start as int), radix),
{
    let n = src.unicode_len();
    if start == n {
        return Err(ParseError::Empty);
    }
    let mut i: usize = start;
    if src.get_char(i) == '+' {
        i = i + 1;
    }
    let ghost body0: Seq<char> = src@.skip(i as int);
    proof {
        assert(src@.skip(start as int)[0] == src@[start as int]);
        if src@[start as int] == '+' {
            assert(src@.skip(start as int).skip(1) =~= src@.skip(start as int + 1));
        }
    }
    if i == n {
        return Err(ParseError::InvalidDigit);
    }
    let mut acc: u32 = 0;
    while i < n
        invariant
            start <= i <= n,
            n == src@.len(),
            radix == 10 || radix == 16,
            acc <= 65535,
            body0.len() > 0,
            spec_parse_u16_radix(src@.skip(start as int), radix) == spec_parse_digits(
                src@.skip(i as int),
                radix,
                acc as u16,
            ),
        decreases n - i,
    {
        let c = src.get_char(i);
        proof {
            assert(src@.skip(i as int)[0] == src@[i as int]);
            assert(src@.skip(i as int).skip(1) =~= src@.skip(i as int + 1));
        }
        match digit_of(c, radix) {
            None => {
                return Err(ParseError::InvalidDigit);
            },
            Some(d) => {
                proof {
                    assert(acc * radix <= 65535 * 16) by (nonlinear_arith)
                        requires
                            acc <= 65535,
                            radix <= 16,
                    ;
                }
                let next = acc * radix + d;
                if next > 65535 {
                    return Err(ParseError::Overflow);
                }
                acc = next;
                i = i + 1;
            },
        }
    }
    proof {
        assert(src@.skip(i as int).len() == 0);
    }
    Ok(acc as u16)
}

/// Parses a device identifier, hexadecimal when the input starts with
/// `0x` and decimal otherwise.
pub fn parse_hex_or_dec(src: &str) -> (r: Result<u16, ParseError>)
    ensures
        r == spec_parse_hex_or_dec(src@),
{
    let n = src.unicode_len();
    if n >= 2 && src.get_char(0) == '0' && src.get_char(1) == 'x' {
        let mut i: usize = 0;
        proof {
            assert(src@.skip(0) =~= src@);
        }
        while i < n && i + 1 < n && src.get_char(i) == '0' && src.get_char(i + 1) == 'x'
            invariant
                n == src@.len(),
                i <= n,
                strip_hex_prefixes(src@) == strip_hex_prefixes(src@.skip(i as int)),
            decreases n - i,
        {
            proof {
                assert(src@.skip(i as int)[0] == src@[i as int]);
                assert(src@.skip(i as int)[1] == src@[i as int + 1]);
                assert(src@.skip(i as int).skip(2) =~= src@.skip(i as int + 2));
            }
            i = i + 2;
        }
        proof {
            assert(strip_hex_prefixes(src@.skip(i as int)) == src@.skip(i as int));
        }
        parse_u16_radix(src, i, 16)
    } else {
        proof {
            assert(src@.skip(0) =~= src@);
        }
        parse_u16_radix(src, 0, 10)
    }
}

} // verus!
