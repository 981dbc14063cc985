//! Packed 24-bit colours and their byte components.

use vstd::prelude::*;

verus! {

/// Value of an ASCII hexadecimal digit, if `c` is one.
pub open spec fn hex_digit_value(c: char) -> Option<u8> {
    if '0' <= c && c <= '9' {
        Some((c as u32 - '0' as u32) as u8)
    } else if 'a' <= c && c <= 'f' {
        Some((c as u32 - 'a' as u32 + 10) as u8)
    } else if 'A' <= c && c <= 'F' {
        Some((c as u32 - 'A' as u32 + 10) as u8)
    } else {
        None
    }
}

/// Value of a two-character base-16 field: two digits, or a `+` sign
/// followed by one digit.
pub open spec fn hex_pair_value(a: char, b: char) -> Option<u8> {
    match (hex_digit_value(a), hex_digit_value(b)) {
        (Some(hi), Some(lo)) => Some((hi * 16 + lo) as u8),
        (None, Some(lo)) => if a == '+' { Some(lo) } else { None },
        _ => None,
    }
}

/// The colour written as `#rrggbb`, if `s` is such a text.
pub open spec fn parse_color_spec(s: Seq<char>) -> Option<(u8, u8, u8)> {
    if s.len() == 7 && s[0] == '#' && (forall|i: int| 0 <= i < 7 ==> (s[i] as u32) < 128) {
        match (hex_pair_value(s[1], s[2]), hex_pair_value(s[3], s[4]), hex_pair_value(s[5], s[6])) {
            (Some(r), Some(g), Some(b)) => Some((r, g, b)),
            _ => None,
        }
    } else {
        None
    }
}

/// A colour split into its red, green and blue bytes.
#[derive(Debug, Clone, Copy, PartialEq, Eq, Structural)]
pub struct ByteRGB {
    pub red: u8,
    pub green: u8,
    pub blue: u8,
}

impl ByteRGB {
    /// The colour held in the low 24 bits of `v` (red highest).
    pub open spec fn spec_from_u32(v: u32) -> ByteRGB {
        ByteRGB {
            red: ((v >> 16u32) & 0xFFu32) as u8,
            green: ((v >> 8u32) & 0xFFu32) as u8,
            blue: (v & 0xFFu32) as u8,
        }
    }

    /// The packed `0x00RRGGBB` form of the colour.
    pub open spec fn spec_as_u32(&self) -> u32 {
        ((self.red as u32) << 16u32) | ((self.green as u32) << 8u32) | (self.blue as u32)
    }

    /// Unpacks the low 24 bits of `value`; the top byte is ignored.
    pub fn from_u32(value: u32) -> (r: ByteRGB)
        ensures
            r == ByteRGB::spec_from_u32(value),
            r.spec_as_u32() == value & 0xFFFFFFu32,
    {
        let r = ByteRGB {
            red: ((value >> 16u32) & 0xFFu32) as u8,
            green: ((value >> 8u32) & 0xFFu32) as u8,
            blue: (value & 0xFFu32) as u8,
        };
        assert(((((value >> 16u32) & 0xFFu32) as u8) as u32) << 16u32 | ((((value >> 8u32)
            & 0xFFu32) as u8) as u32) << 8u32 | (((value & 0xFFu32) as u8) as u32) == value
            & 0xFFFFFFu32) by (bit_vector);
        r
    }

    /// Parses `#rrggbb`; anything else gives `None`.
    pub fn from_hex(value: &str) -> (r: Option<ByteRGB>)
        ensures
            r == (match parse_color_spec(value@) {
                Some((red, green, blue)) => Some(ByteRGB { red, green, blue }),
                None => None,
            }),
    {
        match parse_color(value) {
            None => None,
            Some(colors) => Some(ByteRGB { red: colors.0, green: colors.1, blue: colors.2 }),
        }
    }

    /// Packs the colour as `0x00RRGGBB`.
    pub fn as_u32(&self) -> (r: u32)
        ensures
            r == self.spec_as_u32(),
            r <= 0xFFFFFFu32,
            ByteRGB::spec_from_u32(r) == *self,
    {
        let (red, green, blue) = (self.red, self.green, self.blue);
        let r = ((red as u32) << 16u32) | ((green as u32) << 8u32) | (blue as u32);
        assert((((red as u32) << 16u32) | ((green as u32) << 8u32) | (blue as u32)) <= 0xFFFFFFu32)
            by (bit_vector);
        assert((((((red as u32) << 16u32) | ((green as u32) << 8u32) | (blue as u32)) >> 16u32)
            & 0xFFu32) as u8 == red) by (bit_vector);
        assert((((((red as u32) << 16u32) | ((green as u32) << 8u32) | (blue as u32)) >> 8u32)
            & 0xFFu32) as u8 == green) by (bit_vector);
        assert(((((red as u32) << 16u32) | ((green as u32) << 8u32) | (blue as u32)) & 0xFFu32)
            as u8 == blue) by (bit_vector);
        r
    }
}

fn hex_digit(c: char) -> (r: Option<u8>)
    ensures
        r == hex_digit_value(c),
{
    if '0' <= c && c <= '9' {
        Some((c as u32 - '0' as u32) as u8)
    } else if 'a' <= c && c <= 'f' {
        Some((c as u32 - 'a' as u32 + 10) as u8)
    } else if 'A' <= c && c <= 'F' {
        Some((c as u32 - 'A' as u32 + 10) as u8)
    } else {
        None
    }
}

fn hex_pair(a: char, b: char) -> (r: Option<u8>)
    ensures
        r == hex_pair_value(a, b),
{
    match (hex_digit(a), hex_digit(b)) {
        (Some(hi), Some(lo)) => Some(hi * 16 + lo),
        (None, Some(lo)) => if a == '+' { Some(lo) } else { None },
        _ => None,
    }
}

/// Reads the three components of a `#rrggbb` colour.
pub fn parse_color(hex: &str) -> (r: Option<(u8, u8, u8)>)
    ensures
        r == parse_color_spec(hex@),
{
    if !hex.is_ascii() {
        return None;
    }
    let n = hex.unicode_len();
    if n != 7 || hex.get_char(0) != '#' {
        return None;
    }
    let r = hex_pair(hex.get_char(1), hex.get_char(2));
    let g = hex_pair(hex.get_char(3), hex.get_char(4));
    let b = hex_pair(hex.get_char(5), hex.get_char(6));
    match (r, g, b) {
        (Some(r), Some(g), Some(b)) => Some((r, g, b)),
        _ => None,
    }
}

} // verus!
