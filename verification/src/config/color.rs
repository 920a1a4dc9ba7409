//! An 8-bit RGB color and its six-digit hexadecimal notation.

use vstd::prelude::*;

verus! {

/// An 8-bit RGB color.
#[derive(Clone, Copy, Debug, Default, PartialEq, Eq, Structural)]
pub struct Color {
    r: u8,
    g: u8,
    b: u8,
}

impl View for Color {
    type V = (u8, u8, u8);

    closed spec fn view(&self) -> (u8, u8, u8) {
        (self.r, self.g, self.b)
    }
}

/// Whether `c` is a hexadecimal digit.
pub open spec fn is_hex_digit(c: char) -> bool {
    ('0' as int <= c as int && c as int <= '9' as int) || ('a' as int <= c as int && c as int
        <= 'f' as int) || ('A' as int <= c as int && c as int <= 'F' as int)
}

/// The value of a hexadecimal digit.
pub open spec fn hex_val(c: char) -> int
    recommends
        is_hex_digit(c),
{
    if '0' as int <= c as int && c as int <= '9' as int {
        c as int - '0' as int
    } else if 'a' as int <= c as int && c as int <= 'f' as int {
        c as int - 'a' as int + 10
    } else {
        c as int - 'A' as int + 10
    }
}

/// The byte named by the two hexadecimal digits at `i` and `i + 1`.
pub open spec fn hex_byte_at(s: Seq<char>, i: int) -> int
    recommends
        0 <= i && i + 1 < s.len(),
{
    16 * hex_val(s[i]) + hex_val(s[i + 1])
}

/// Whether `s` is a color in the six-digit notation `#rrggbb`.
pub open spec fn is_hex_color(s: Seq<char>) -> bool {
    s.len() == 7 && s[0] == '#' && (forall|i: int| 1 <= i < 7 ==> is_hex_digit(#[trigger] s[i]))
}

fn hex_digit_val(c: char) -> (r: Option<u8>)
    ensures
        match r {
            Some(v) => is_hex_digit(c) && v as int == hex_val(c),
            None => !is_hex_digit(c),
        },
{
    let u = c as u32;
    if 48 <= u && u <= 57 {
        Some((u - 48) as u8)
    } else if 97 <= u && u <= 102 {
        Some((u - 97 + 10) as u8)
    } else if 65 <= u && u <= 70 {
        Some((u - 65 + 10) as u8)
    } else {
        None
    }
}

impl Color {
    /// Constructs a color from 8-bit red, green, and blue components.
    pub fn from_rgb(r: u8, g: u8, b: u8) -> (c: Self)
        ensures
            c@ == (r, g, b),
    {
        Self { r, g, b }
    }

    /// Decomposes the color into an 8-bit RGB triple.
    pub fn as_rgb(&self) -> (rgb: (u8, u8, u8))
        ensures
            rgb == self@,
    {
        (self.r, self.g, self.b)
    }

    /// Parses a color written as `#rrggbb`, with exactly six hexadecimal
    /// digits after the leading number sign.
    pub fn from_hex(s: &str) -> (c: Option<Self>)
        ensures
            match c {
                Some(c) => is_hex_color(s@) && c@ == (
                    hex_byte_at(s@, 1) as u8,
                    hex_byte_at(s@, 3) as u8,
                    hex_byte_at(s@, 5) as u8,
                ),
                None => !is_hex_color(s@),
            },
    {
        if s.unicode_len() != 7 {
            return None;
        }
        if s.get_char(0) != '#' {
            return None;
        }
        let r = Self::hex_byte(s, 1);
        let g = Self::hex_byte(s, 3);
        let b = Self::hex_byte(s, 5);
        match (r, g, b) {
            (Some(r), Some(g), Some(b)) => Some(Self { r, g, b }),
            _ => None,
        }
    }

    fn hex_byte(s: &str, i: usize) -> (r: Option<u8>)
        requires
            i + 1 < s@.len(),
            s@.len() <= usize::MAX,
        ensures
            match r {
                Some(v) => is_hex_digit(s@[i as int]) && is_hex_digit(s@[i + 1]) && v as int
                    == hex_byte_at(s@, i as int),
                None => !(is_hex_digit(s@[i as int]) && is_hex_digit(s@[i + 1])),
            },
    {
        let hi = hex_digit_val(s.get_char(i));
        let lo = hex_digit_val(s.get_char(i + 1));
        match (hi, lo) {
            (Some(hi), Some(lo)) => Some(16 * hi + lo),
            _ => None,
        }
    }
}

} // verus!
