//! RGB colors and their short hex notation.

use vstd::prelude::*;

verus! {

/// Relies on `String::push` from std: it appends the given character to the
/// end of the string.
pub assume_specification[ String::push ](s: &mut String, ch: char)
    ensures
        final(s)@ == old(s)@.push(ch),
;

/// An 8-bit RGB color.
#[derive(Clone, Copy, PartialEq, Eq, Structural, Debug)]
pub struct Color {
    pub r: u8,
    pub g: u8,
    pub b: u8,
}

/// Why a hex color string was rejected.
#[derive(Clone, Copy, PartialEq, Eq, Structural, Debug)]
pub enum ColorParseError {
    /// Fewer than five characters, so a channel digit is missing.
    TooShort,
    /// A character at a channel position is not a hexadecimal digit.
    BadDigit,
}

/// The value of a hexadecimal digit, or nothing for any other character.
pub open spec fn spec_hex_digit(c: char) -> Option<u8> {
    match c {
        '0' => Some(0u8), '1' => Some(1u8), '2' => Some(2u8), '3' => Some(3u8),
        '4' => Some(4u8), '5' => Some(5u8), '6' => Some(6u8), '7' => Some(7u8),
        '8' => Some(8u8), '9' => Some(9u8),
        'a' => Some(10u8), 'b' => Some(11u8), 'c' => Some(12u8),
        'd' => Some(13u8), 'e' => Some(14u8), 'f' => Some(15u8),
        'A' => Some(10u8), 'B' => Some(11u8), 'C' => Some(12u8),
        'D' => Some(13u8), 'E' => Some(14u8), 'F' => Some(15u8),
        _ => None,
    }
}

/// Reads one hexadecimal digit.
pub fn hex_digit(c: char) -> (r: Option<u8>)
    ensures r == spec_hex_digit(c),
{
    match c {
        '0' => Some(0u8), '1' => Some(1u8), '2' => Some(2u8), '3' => Some(3u8),
        '4' => Some(4u8), '5' => Some(5u8), '6' => Some(6u8), '7' => Some(7u8),
        '8' => Some(8u8), '9' => Some(9u8),
        'a' => Some(10u8), 'b' => Some(11u8), 'c' => Some(12u8),
        'd' => Some(13u8), 'e' => Some(14u8), 'f' => Some(15u8),
        'A' => Some(10u8), 'B' => Some(11u8), 'C' => Some(12u8),
        'D' => Some(13u8), 'E' => Some(14u8), 'F' => Some(15u8),
        _ => None,
    }
}

/// The uppercase hexadecimal digit for a value below sixteen.
pub open spec fn spec_hex_char(n: int) -> char {
    if n == 0 { '0' } else if n == 1 { '1' } else if n == 2 { '2' }
    else if n == 3 { '3' } else if n == 4 { '4' } else if n == 5 { '5' }
    else if n == 6 { '6' } else if n == 7 { '7' } else if n == 8 { '8' }
    else if n == 9 { '9' } else if n == 10 { 'A' } else if n == 11 { 'B' }
    else if n == 12 { 'C' } else if n == 13 { 'D' } else if n == 14 { 'E' }
    else { 'F' }
}

/// Writes one uppercase hexadecimal digit.
pub fn hex_char(n: u8) -> (r: char)
    requires n < 16,
    ensures r == spec_hex_char(n as int),
{
    if n == 0 { '0' } else if n == 1 { '1' } else if n == 2 { '2' }
    else if n == 3 { '3' } else if n == 4 { '4' } else if n == 5 { '5' }
    else if n == 6 { '6' } else if n == 7 { '7' } else if n == 8 { '8' }
    else if n == 9 { '9' } else if n == 10 { 'A' } else if n == 11 { 'B' }
    else if n == 12 { 'C' } else if n == 13 { 'D' } else if n == 14 { 'E' }
    else { 'F' }
}

/// A color string parses when it is long enough and its first, third and
/// fifth characters are hexadecimal digits.
pub open spec fn spec_color_parses(s: Seq<char>) -> bool {
    &&& s.len() >= 5
    &&& spec_hex_digit(s[0]) is Some
    &&& spec_hex_digit(s[2]) is Some
    &&& spec_hex_digit(s[4]) is Some
}

impl Color {
    /// Reads a color from short hex notation: one digit per channel, taken
    /// from the first, third and fifth characters of the string.
    ///
    /// Returns the color exactly when the string parses, and says which way
    /// it failed otherwise.
    pub fn new(hex: &str) -> (res: Result<Color, ColorParseError>)
        ensures
            spec_color_parses(hex@) ==> res == Ok::<Color, ColorParseError>(Color {
                r: spec_hex_digit(hex@[0])->Some_0,
                g: spec_hex_digit(hex@[2])->Some_0,
                b: spec_hex_digit(hex@[4])->Some_0,
            }),
            !spec_color_parses(hex@) ==> res is Err,
            hex@.len() < 5 <==> res == Err::<Color, ColorParseError>(ColorParseError::TooShort),
    {
        let n = hex.unicode_len();
        if n < 5 {
            return Err(ColorParseError::TooShort);
        }
        let c0 = hex.get_char(0);
        let c2 = hex.get_char(2);
        let c4 = hex.get_char(4);
        let r = hex_digit(c0);
        let g = hex_digit(c2);
        let b = hex_digit(c4);
        match (r, g, b) {
            (Some(r), Some(g), Some(b)) => Ok(Color { r, g, b }),
            _ => Err(ColorParseError::BadDigit),
        }
    }

    /// Pure white.
    pub fn white() -> (c: Color)
        ensures c == (Color { r: 255u8, g: 255u8, b: 255u8 }),
    {
        Color { r: 255, g: 255, b: 255 }
    }

    /// Pure red.
    pub fn red() -> (c: Color)
        ensures c == (Color { r: 255u8, g: 0u8, b: 0u8 }),
    {
        Color { r: 255, g: 0, b: 0 }
    }

    /// Pure black.
    pub fn black() -> (c: Color)
        ensures c == (Color { r: 0u8, g: 0u8, b: 0u8 }),
    {
        Color { r: 0, g: 0, b: 0 }
    }

    /// The seven-character uppercase hex notation of the color.
    pub fn to_hex(&self) -> (s: String)
        ensures
            s@ == seq![
                '#',
                spec_hex_char(self.r as int / 16), spec_hex_char(self.r as int % 16),
                spec_hex_char(self.g as int / 16), spec_hex_char(self.g as int % 16),
                spec_hex_char(self.b as int / 16), spec_hex_char(self.b as int % 16),
            ],
    {
        let mut s = String::new();
        s.push('#');
        s.push(hex_char(self.r / 16));
        s.push(hex_char(self.r % 16));
        s.push(hex_char(self.g / 16));
        s.push(hex_char(self.g % 16));
        s.push(hex_char(self.b / 16));
        s.push(hex_char(self.b % 16));
        proof {
            assert(s@ =~= seq![
                '#',
                spec_hex_char(self.r as int / 16), spec_hex_char(self.r as int % 16),
                spec_hex_char(self.g as int / 16), spec_hex_char(self.g as int % 16),
                spec_hex_char(self.b as int / 16), spec_hex_char(self.b as int % 16),
            ]);
        }
        s
    }
}

} // verus!
