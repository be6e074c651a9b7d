//! An RGB triplet read from a `#RRGGBB` hexadecimal text.

use vstd::prelude::*;

use crate::Error;

verus! {

/// Whether `c` is an ASCII hexadecimal digit (`0-9`, `a-f`, `A-F`).
pub open spec fn is_hex_digit(c: char) -> bool {
    ||| 48 <= c as u32 && c as u32 <= 57
    ||| 97 <= c as u32 && c as u32 <= 102
    ||| 65 <= c as u32 && c as u32 <= 70
}

/// The numeric value of the hexadecimal digit `c`.
pub open spec fn hex_digit_value(c: char) -> u8
    recommends
        is_hex_digit(c),
{
    if 48 <= c as u32 && c as u32 <= 57 {
        (c as u32 - 48) as u8
    } else if 97 <= c as u32 && c as u32 <= 102 {
        (c as u32 - 87) as u8
    } else {
        (c as u32 - 55) as u8
    }
}

/// The byte written by the two hexadecimal digits `hi`, `lo`.
pub open spec fn hex_pair_value(hi: char, lo: char) -> u8
    recommends
        is_hex_digit(hi),
        is_hex_digit(lo),
{
    (16 * hex_digit_value(hi) + hex_digit_value(lo)) as u8
}

/// What parsing a colour text must yield: the three channel bytes read from
/// the hexadecimal digit pairs at character positions 1-2, 3-4 and 5-6, or
/// the error owed to `s`. The character at position 0 and everything past
/// position 6 are ignored.
pub open spec fn spec_parse(s: Seq<char>) -> Result<(u8, u8, u8), Error> {
    if s.len() < 7 {
        Err(Error::TooShort)
    } else if !(is_hex_digit(s[1]) && is_hex_digit(s[2]) && is_hex_digit(s[3])
        && is_hex_digit(s[4]) && is_hex_digit(s[5]) && is_hex_digit(s[6])) {
        Err(Error::InvalidHexDigit)
    } else {
        Ok(
            (
                hex_pair_value(s[1], s[2]),
                hex_pair_value(s[3], s[4]),
                hex_pair_value(s[5], s[6]),
            ),
        )
    }
}

/// An RGB triplet, one byte per channel.
#[derive(Clone, Debug, PartialEq, Eq, Structural)]
pub struct Colour {
    r: u8,
    g: u8,
    b: u8,
}

impl Colour {
    /// The three channel bytes, red first.
    pub closed spec fn rgb(&self) -> (u8, u8, u8) {
        (self.r, self.g, self.b)
    }

    /// Reads a colour of the form `#RRGGBB`: hexadecimal digit pairs at
    /// character positions 1-2, 3-4 and 5-6. The leading character and any
    /// characters past position 6 are not examined.
    pub fn parse(text: &str) -> (r: Result<Colour, Error>)
        ensures
            match spec_parse(text@) {
                Ok(v) => r is Ok && r->Ok_0.rgb() == v,
                Err(e) => r is Err && r->Err_0 == e,
            },
    {
        if text.unicode_len() < 7 {
            return Err(Error::TooShort);
        }
        let red = match hex_pair(text.get_char(1), text.get_char(2)) {
            Some(v) => v,
            None => {
                return Err(Error::InvalidHexDigit);
            },
        };
        let green = match hex_pair(text.get_char(3), text.get_char(4)) {
            Some(v) => v,
            None => {
                return Err(Error::InvalidHexDigit);
            },
        };
        let blue = match hex_pair(text.get_char(5), text.get_char(6)) {
            Some(v) => v,
            None => {
                return Err(Error::InvalidHexDigit);
            },
        };
        Ok(Colour { r: red, g: green, b: blue })
    }

    /// Builds the colour that carries zero on every channel.
    pub(crate) fn black() -> (c: Colour)
        ensures
            c.rgb() == (0u8, 0u8, 0u8),
    {
        Colour { r: 0, g: 0, b: 0 }
    }

    /// The red channel.
    pub fn red(&self) -> (v: u8)
        ensures
            v == self.rgb().0,
    {
        self.r
    }

    /// The green channel.
    pub fn green(&self) -> (v: u8)
        ensures
            v == self.rgb().1,
    {
        self.g
    }

    /// The blue channel.
    pub fn blue(&self) -> (v: u8)
        ensures
            v == self.rgb().2,
    {
        self.b
    }
}

/// The value of the hexadecimal digit `c`, or `None` where `c` is no such
/// digit.
fn hex_value(c: char) -> (r: Option<u8>)
    ensures
        r is Some <==> is_hex_digit(c),
        r is Some ==> r->0 == hex_digit_value(c),
{
    let n = c as u32;
    if 48 <= n && n <= 57 {
        Some((n - 48) as u8)
    } else if 97 <= n && n <= 102 {
        Some((n - 87) as u8)
    } else if 65 <= n && n <= 70 {
        Some((n - 55) as u8)
    } else {
        None
    }
}

/// The byte written by the two hexadecimal digits `hi`, `lo`, or `None`
/// where either is no such digit.
fn hex_pair(hi: char, lo: char) -> (r: Option<u8>)
    ensures
        r is Some <==> is_hex_digit(hi) && is_hex_digit(lo),
        r is Some ==> r->0 == hex_pair_value(hi, lo),
{
    match (hex_value(hi), hex_value(lo)) {
        (Some(h), Some(l)) => Some(16 * h + l),
        _ => None,
    }
}

} // verus!
