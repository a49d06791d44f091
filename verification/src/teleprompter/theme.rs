//! The colours of the overlay: sixteen slots, each written `#rrggbb`.

use vstd::prelude::*;

use crate::text::chars_of;

verus! {

/// A colour.
#[derive(Debug, Clone, Copy, PartialEq, Eq, Structural)]
pub struct Rgb {
    pub r: u8,
    pub g: u8,
    pub b: u8,
}

/// The slots as they are written.
#[derive(Debug, Clone)]
pub struct Raw {
    pub base00: String,
    pub base01: String,
    pub base02: String,
    pub base03: String,
    pub base04: String,
    pub base05: String,
    pub base06: String,
    pub base07: String,
    pub base08: String,
    pub base09: String,
    pub base0a: String,
    pub base0b: String,
    pub base0c: String,
    pub base0d: String,
    pub base0e: String,
    pub base0f: String,
}

/// A palette.
#[derive(Debug, Clone, Copy, PartialEq, Eq, Structural)]
pub struct Base16 {
    pub base00: Rgb,
    pub base01: Rgb,
    pub base02: Rgb,
    pub base03: Rgb,
    pub base04: Rgb,
    pub base05: Rgb,
    pub base06: Rgb,
    pub base07: Rgb,
    pub base08: Rgb,
    pub base09: Rgb,
    pub base0a: Rgb,
    pub base0b: Rgb,
    pub base0c: Rgb,
    pub base0d: Rgb,
    pub base0e: Rgb,
    pub base0f: Rgb,
}

/// The value of a hexadecimal digit, in either case.
pub open spec fn hex_digit(c: char) -> Option<int> {
    if '0' <= c <= '9' {
        Some(c as int - '0' as int)
    } else if 'a' <= c <= 'f' {
        Some(c as int - 'a' as int + 10)
    } else if 'A' <= c <= 'F' {
        Some(c as int - 'A' as int + 10)
    } else {
        None
    }
}

/// The byte that two hexadecimal digits spell.
pub open spec fn hex_byte(high: char, low: char) -> Option<int> {
    match (hex_digit(high), hex_digit(low)) {
        (Some(h), Some(l)) => Some(16 * h + l),
        _ => None,
    }
}

/// The colour that a text spells as `#rrggbb`.
pub open spec fn colour(s: Seq<char>) -> Option<Rgb> {
    if s.len() != 7 || s[0] != '#' {
        None
    } else {
        match (hex_byte(s[1], s[2]), hex_byte(s[3], s[4]), hex_byte(s[5], s[6])) {
            (Some(r), Some(g), Some(b)) => Some(Rgb { r: r as u8, g: g as u8, b: b as u8 }),
            _ => None,
        }
    }
}

fn digit_value(c: char) -> (value: Option<u8>)
    ensures
        match value {
            Some(v) => hex_digit(c) == Some(v as int) && v < 16,
            None => hex_digit(c) is None,
        },
{
    let n: u32 = c as u32;
    if '0' <= c && c <= '9' {
        Some((n - 48) as u8)
    } else if 'a' <= c && c <= 'f' {
        Some((n - 97 + 10) as u8)
    } else if 'A' <= c && c <= 'F' {
        Some((n - 65 + 10) as u8)
    } else {
        None
    }
}

fn byte_value(high: char, low: char) -> (value: Option<u8>)
    ensures
        match value {
            Some(v) => hex_byte(high, low) == Some(v as int),
            None => hex_byte(high, low) is None,
        },
{
    match (digit_value(high), digit_value(low)) {
        (Some(h), Some(l)) => Some(16 * h + l),
        _ => None,
    }
}

/// The colour that a text spells as `#rrggbb`, if it spells one.
pub fn hex(text: &str) -> (found: Option<Rgb>)
    ensures
        found == colour(text@),
{
    let c = chars_of(text);
    if c.len() != 7 || c[0] != '#' {
        return None;
    }
    match (byte_value(c[1], c[2]), byte_value(c[3], c[4]), byte_value(c[5], c[6])) {
        (Some(r), Some(g), Some(b)) => Some(Rgb { r, g, b }),
        _ => None,
    }
}

impl Raw {
    /// Whether every slot spells a colour.
    pub open spec fn is_valid(self) -> bool {
        &&& colour(self.base00@) is Some
        &&& colour(self.base01@) is Some
        &&& colour(self.base02@) is Some
        &&& colour(self.base03@) is Some
        &&& colour(self.base04@) is Some
        &&& colour(self.base05@) is Some
        &&& colour(self.base06@) is Some
        &&& colour(self.base07@) is Some
        &&& colour(self.base08@) is Some
        &&& colour(self.base09@) is Some
        &&& colour(self.base0a@) is Some
        &&& colour(self.base0b@) is Some
        &&& colour(self.base0c@) is Some
        &&& colour(self.base0d@) is Some
        &&& colour(self.base0e@) is Some
        &&& colour(self.base0f@) is Some
    }

    /// Whether every slot spells the palette's colour.
    pub open spec fn spells(self, palette: Base16) -> bool {
        &&& colour(self.base00@) == Some(palette.base00)
        &&& colour(self.base01@) == Some(palette.base01)
        &&& colour(self.base02@) == Some(palette.base02)
        &&& colour(self.base03@) == Some(palette.base03)
        &&& colour(self.base04@) == Some(palette.base04)
        &&& colour(self.base05@) == Some(palette.base05)
        &&& colour(self.base06@) == Some(palette.base06)
        &&& colour(self.base07@) == Some(palette.base07)
        &&& colour(self.base08@) == Some(palette.base08)
        &&& colour(self.base09@) == Some(palette.base09)
        &&& colour(self.base0a@) == Some(palette.base0a)
        &&& colour(self.base0b@) == Some(palette.base0b)
        &&& colour(self.base0c@) == Some(palette.base0c)
        &&& colour(self.base0d@) == Some(palette.base0d)
        &&& colour(self.base0e@) == Some(palette.base0e)
        &&& colour(self.base0f@) == Some(palette.base0f)
    }

    /// The palette, if every slot spells a colour.
    pub fn into_palette(self) -> (palette: Option<Base16>)
        ensures
            match palette {
                Some(p) => self.is_valid() && self.spells(p),
                None => !self.is_valid(),
            },
    {
        Some(
            Base16 {
                base00: hex(self.base00.as_str())?,
                base01: hex(self.base01.as_str())?,
                base02: hex(self.base02.as_str())?,
                base03: hex(self.base03.as_str())?,
                base04: hex(self.base04.as_str())?,
                base05: hex(self.base05.as_str())?,
                base06: hex(self.base06.as_str())?,
                base07: hex(self.base07.as_str())?,
                base08: hex(self.base08.as_str())?,
                base09: hex(self.base09.as_str())?,
                base0a: hex(self.base0a.as_str())?,
                base0b: hex(self.base0b.as_str())?,
                base0c: hex(self.base0c.as_str())?,
                base0d: hex(self.base0d.as_str())?,
                base0e: hex(self.base0e.as_str())?,
                base0f: hex(self.base0f.as_str())?,
            },
        )
    }
}

/// The palette of a file, or `fallback` where there is no file, it has not the right form
/// or some slot spells no colour.
pub fn load(file: Option<Raw>, fallback: Base16) -> (palette: Base16)
    ensures
        match file {
            Some(raw) => if raw.is_valid() {
                raw.spells(palette)
            } else {
                palette == fallback
            },
            None => palette == fallback,
        },
{
    match file {
        Some(raw) => match raw.into_palette() {
            Some(palette) => palette,
            None => fallback,
        },
        None => fallback,
    }
}

// ── Laws ──────────────────────────────────────────────────────────────────────

/// The digits of 0 to 15, with small or capital letters.
pub open spec fn hex_char(n: int, capital: bool) -> char {
    if n < 10 {
        (48 + n) as char
    } else if capital {
        (55 + n) as char
    } else {
        (87 + n) as char
    }
}

/// A digit means its number in either case, and nothing else is a digit.
pub proof fn law_hex_digits(n: int, capital: bool, c: char)
    requires
        0 <= n < 16,
    ensures
        hex_digit(hex_char(n, capital)) == Some(n),
        hex_digit(c) is Some ==> 0 <= hex_digit(c)->0 < 16 && (c == hex_char(
            hex_digit(c)->0,
            false,
        ) || c == hex_char(hex_digit(c)->0, true)),
{
    assert(hex_char(n, capital) as int == (if n < 10 {
        48 + n
    } else if capital {
        55 + n
    } else {
        87 + n
    }));
    if hex_digit(c) is Some {
        let v = hex_digit(c)->0;
        assert(c as u32 as char == c);
    }
}

/// Every colour is read back from its text: the sign, and two digits each for red, green and
/// blue, the higher one first, in either case.
pub proof fn law_colours_read_back(rgb: Rgb, a: bool, b: bool, c: bool, d: bool, e: bool, f: bool)
    ensures
        colour(
            seq![
                '#',
                hex_char(rgb.r as int / 16, a),
                hex_char(rgb.r as int % 16, b),
                hex_char(rgb.g as int / 16, c),
                hex_char(rgb.g as int % 16, d),
                hex_char(rgb.b as int / 16, e),
                hex_char(rgb.b as int % 16, f),
            ],
        ) == Some(rgb),
{
    law_hex_digits(rgb.r as int / 16, a, '0');
    law_hex_digits(rgb.r as int % 16, b, '0');
    law_hex_digits(rgb.g as int / 16, c, '0');
    law_hex_digits(rgb.g as int % 16, d, '0');
    law_hex_digits(rgb.b as int / 16, e, '0');
    law_hex_digits(rgb.b as int % 16, f, '0');
}

/// Only such a text spells a colour: the sign and six digits.
pub proof fn law_only_six_digits_spell_colours(s: Seq<char>)
    ensures
        colour(s) is Some <==> {
            &&& s.len() == 7
            &&& s[0] == '#'
            &&& forall|i: int|
                1 <= i < 7 ==> '0' <= #[trigger] s[i] <= '9' || 'a' <= s[i] <= 'f' || 'A' <= s[i]
                    <= 'F'
        },
{
    if s.len() == 7 {
        let six = seq![s[1], s[2], s[3], s[4], s[5], s[6]];
        assert(forall|i: int| 0 <= i < 6 ==> #[trigger] six[i] == s[i + 1]);
    }
}

/// A palette has in each slot the colour that is written there, and there is one exactly if
/// every slot spells a colour.
pub proof fn law_slots_keep_their_colours(raw: Raw, palette: Base16)
    ensures
        raw.spells(palette) ==> raw.is_valid(),
        raw.spells(palette) <==> {
            &&& colour(raw.base00@) == Some(palette.base00)
            &&& colour(raw.base01@) == Some(palette.base01)
            &&& colour(raw.base02@) == Some(palette.base02)
            &&& colour(raw.base03@) == Some(palette.base03)
            &&& colour(raw.base04@) == Some(palette.base04)
            &&& colour(raw.base05@) == Some(palette.base05)
            &&& colour(raw.base06@) == Some(palette.base06)
            &&& colour(raw.base07@) == Some(palette.base07)
            &&& colour(raw.base08@) == Some(palette.base08)
            &&& colour(raw.base09@) == Some(palette.base09)
            &&& colour(raw.base0a@) == Some(palette.base0a)
            &&& colour(raw.base0b@) == Some(palette.base0b)
            &&& colour(raw.base0c@) == Some(palette.base0c)
            &&& colour(raw.base0d@) == Some(palette.base0d)
            &&& colour(raw.base0e@) == Some(palette.base0e)
            &&& colour(raw.base0f@) == Some(palette.base0f)
        },
        raw.is_valid() ==> exists|p: Base16| #[trigger] raw.spells(p),
{
    if raw.is_valid() {
        let p = Base16 {
            base00: colour(raw.base00@)->0,
            base01: colour(raw.base01@)->0,
            base02: colour(raw.base02@)->0,
            base03: colour(raw.base03@)->0,
            base04: colour(raw.base04@)->0,
            base05: colour(raw.base05@)->0,
            base06: colour(raw.base06@)->0,
            base07: colour(raw.base07@)->0,
            base08: colour(raw.base08@)->0,
            base09: colour(raw.base09@)->0,
            base0a: colour(raw.base0a@)->0,
            base0b: colour(raw.base0b@)->0,
            base0c: colour(raw.base0c@)->0,
            base0d: colour(raw.base0d@)->0,
            base0e: colour(raw.base0e@)->0,
            base0f: colour(raw.base0f@)->0,
        };
        assert(raw.spells(p));
    }
}

} // verus!
