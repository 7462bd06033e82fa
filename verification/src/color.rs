//! An RGB colour written as six hexadecimal digits.

use vstd::prelude::*;
use vstd::string::StringSliceAdditionalSpecFns;

verus! {

/// The duty values of the red, green and blue channel.
#[derive(Clone, Copy, Debug, PartialEq, Eq, Structural)]
pub struct Color {
    pub r: u8,
    pub g: u8,
    pub b: u8,
}

/// Why a text is not a colour.
#[derive(Clone, Copy, Debug, PartialEq, Eq, Structural)]
pub enum ColorError {
    /// The text is not six bytes long.
    Length,
    /// A byte of the text is not a hexadecimal digit.
    Digit,
}

/// The value of an ASCII hexadecimal digit, in either case.
pub open spec fn hex_value(byte: u8) -> Option<u8> {
    if 0x30 <= byte <= 0x39 {
        Some((byte - 0x30) as u8)
    } else if 0x41 <= byte <= 0x46 {
        Some((byte - 0x41 + 10) as u8)
    } else if 0x61 <= byte <= 0x66 {
        Some((byte - 0x61 + 10) as u8)
    } else {
        None
    }
}

/// The value of two hexadecimal digits, the high one first.
pub open spec fn hex_pair(high: u8, low: u8) -> Option<u8> {
    match (hex_value(high), hex_value(low)) {
        (Some(h), Some(l)) => Some((16 * h + l) as u8),
        _ => None,
    }
}

/// The colour that a text denotes: six hexadecimal digits, two for each of
/// red, green and blue. Any other text is refused.
pub open spec fn parse_color(text: Seq<u8>) -> Result<Color, ColorError> {
    if text.len() != 6 {
        Err(ColorError::Length)
    } else {
        match (
            hex_pair(text[0], text[1]),
            hex_pair(text[2], text[3]),
            hex_pair(text[4], text[5]),
        ) {
            (Some(r), Some(g), Some(b)) => Ok(Color { r, g, b }),
            _ => Err(ColorError::Digit),
        }
    }
}

/// Reads one hexadecimal digit.
pub fn hex_digit(byte: u8) -> (value: Option<u8>)
    ensures
        value == hex_value(byte),
        value matches Some(v) ==> v < 16,
{
    if 0x30 <= byte && byte <= 0x39 {
        Some(byte - 0x30)
    } else if 0x41 <= byte && byte <= 0x46 {
        Some(byte - 0x41 + 10)
    } else if 0x61 <= byte && byte <= 0x66 {
        Some(byte - 0x61 + 10)
    } else {
        None
    }
}

/// Reads two hexadecimal digits as one byte.
pub fn hex_byte(high: u8, low: u8) -> (value: Option<u8>)
    ensures
        value == hex_pair(high, low),
{
    match (hex_digit(high), hex_digit(low)) {
        (Some(h), Some(l)) => Some(16 * h + l),
        _ => None,
    }
}

impl Color {
    /// Reads a colour from the bytes of its six digits.
    pub fn from_hex(text: &[u8]) -> (color: Result<Color, ColorError>)
        ensures
            color == parse_color(text@),
    {
        if text.len() != 6 {
            return Err(ColorError::Length);
        }
        match (hex_byte(text[0], text[1]), hex_byte(text[2], text[3]), hex_byte(text[4], text[5])) {
            (Some(r), Some(g), Some(b)) => Ok(Color { r, g, b }),
            _ => Err(ColorError::Digit),
        }
    }

    /// Reads a colour from a text of six digits.
    pub fn try_from(value: &str) -> (color: Result<Color, ColorError>)
        ensures
            color == parse_color(value.spec_bytes()),
    {
        Color::from_hex(value.as_bytes())
    }
}

/// A colour is read back from its own digits: the text of any two digits per
/// channel gives the channels' values.
pub proof fn parse_reads_digits(text: Seq<u8>)
    requires
        text.len() == 6,
        forall|i: int| 0 <= i < 6 ==> hex_value(#[trigger] text[i]) is Some,
    ensures
        parse_color(text) matches Ok(color) && {
            &&& color.r == 16 * hex_value(text[0]).unwrap() + hex_value(text[1]).unwrap()
            &&& color.g == 16 * hex_value(text[2]).unwrap() + hex_value(text[3]).unwrap()
            &&& color.b == 16 * hex_value(text[4]).unwrap() + hex_value(text[5]).unwrap()
        },
{
}

} // verus!
