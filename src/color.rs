//! The color model: the `Color` variants, hex-code validation and the
//! capability-gated constructors.
use vstd::prelude::*;

use crate::error::ColorError;
use crate::support::ColorSupport;

verus! {

/// A terminal color.
#[allow(clippy::upper_case_acronyms)]
#[derive(Debug, Clone, Copy, PartialEq, Eq, Default)]
pub enum Color {
    Black,
    Red,
    Green,
    Yellow,
    Blue,
    Magenta,
    Cyan,
    White,
    /// No color selected.
    #[default]
    Empty,
    RGB(u8, u8, u8),
    /// An indexed color of the 256-color palette (16..=255).
    Color256(u8),
    /// A `#RRGGBB` hex code.
    HEX(&'static str),
    /// Hue (0-360), saturation (0-100), value (0-100).
    HSV(u16, u8, u8),
    /// Hue (0-360), saturation (0-100), lightness (0-100).
    HSL(u16, u8, u8),
}

/// Whether `c` is an ASCII hexadecimal digit.
pub open spec fn is_hex_digit(c: char) -> bool {
    ('0' <= c && c <= '9') || ('a' <= c && c <= 'f') || ('A' <= c && c <= 'F')
}

/// Value of a hexadecimal digit.
pub open spec fn hex_digit_value(c: char) -> int {
    if '0' <= c && c <= '9' {
        c as int - '0' as int
    } else if 'a' <= c && c <= 'f' {
        c as int - 'a' as int + 10
    } else {
        c as int - 'A' as int + 10
    }
}

/// `#` followed by exactly six hexadecimal digits.
pub open spec fn is_valid_hex(s: Seq<char>) -> bool {
    &&& s.len() == 7
    &&& s[0] == '#'
    &&& forall|i: int| 1 <= i < 7 ==> is_hex_digit(#[trigger] s[i])
}

/// The byte written by the two hex digits at `i` and `i + 1`.
pub open spec fn hex_pair(s: Seq<char>, i: int) -> u8 {
    (16 * hex_digit_value(s[i]) + hex_digit_value(s[i + 1])) as u8
}

/// The RGB channels written by a valid hex code.
pub open spec fn hex_channels(s: Seq<char>) -> (u8, u8, u8) {
    (hex_pair(s, 1), hex_pair(s, 3), hex_pair(s, 5))
}

fn hex_digit(c: char) -> (r: Option<u8>)
    ensures
        is_hex_digit(c) <==> r is Some,
        r matches Some(d) ==> d as int == hex_digit_value(c),
{
    if '0' <= c && c <= '9' {
        Some((c as u32 - '0' as u32) as u8)
    } else if 'a' <= c && c <= 'f' {
        Some((c as u32 - 'a' as u32 + 10) as u8)
    } else if 'A' <= c && c <= 'F' {
        Some((c as u32 - 'A' as u32 + 10) as u8)
    } else {
        None
    }
}

fn hex_byte_at(hex: &str, i: usize) -> (r: Option<u8>)
    requires
        hex@.len() == 7,
        1 <= i <= 5,
    ensures
        (is_hex_digit(hex@[i as int]) && is_hex_digit(hex@[i + 1])) <==> r is Some,
        r matches Some(v) ==> v == hex_pair(hex@, i as int),
{
    match (hex_digit(hex.get_char(i)), hex_digit(hex.get_char(i + 1))) {
        (Some(hi), Some(lo)) => Some(hi * 16 + lo),
        _ => None,
    }
}

impl Color {
    /// A color that can be rendered: palette codes are at least 16, hex codes
    /// are valid and HSV/HSL components are in range.
    pub open spec fn wf(self) -> bool {
        match self {
            Color::Color256(code) => code >= 16,
            Color::HEX(s) => is_valid_hex(s@),
            Color::HSV(h, s, v) => h <= 360 && s <= 100 && v <= 100,
            Color::HSL(h, s, l) => h <= 360 && s <= 100 && l <= 100,
            _ => true,
        }
    }

    /// `Ok(c)` when `support` is true color, else the capability error.
    pub open spec fn gated(c: Color, support: ColorSupport) -> Result<Color, ColorError> {
        if support == ColorSupport::TrueColor {
            Ok(c)
        } else {
            Err(ColorError::UnsupportedColorMode(ColorSupport::TrueColor, support))
        }
    }

    fn gate(c: Color, support: ColorSupport) -> (r: Result<Color, ColorError>)
        ensures
            r == Self::gated(c, support),
    {
        match support {
            ColorSupport::TrueColor => Ok(c),
            _ => Err(ColorError::UnsupportedColorMode(ColorSupport::TrueColor, support)),
        }
    }

    /// Creates an RGB color; requires true-color support.
    pub fn new_rgb(r: u8, g: u8, b: u8, support: ColorSupport) -> (res: Result<Self, ColorError>)
        ensures
            res == Self::gated(Color::RGB(r, g, b), support),
    {
        Self::gate(Color::RGB(r, g, b), support)
    }

    /// Parses a `#RRGGBB` hex code into its RGB channels.
    pub fn validate_hex(hex: &str) -> (res: Result<(u8, u8, u8), ColorError>)
        ensures
            is_valid_hex(hex@) ==> res == Ok::<(u8, u8, u8), ColorError>(hex_channels(hex@)),
            !is_valid_hex(hex@) ==> (res matches Err(ColorError::InvalidHexCode(t)) && t@ == hex@),
    {
        if hex.unicode_len() != 7 || hex.get_char(0) != '#' {
            return Err(ColorError::InvalidHexCode(hex.to_owned()));
        }
        let r = hex_byte_at(hex, 1);
        let g = hex_byte_at(hex, 3);
        let b = hex_byte_at(hex, 5);
        match (r, g, b) {
            (Some(r), Some(g), Some(b)) => Ok((r, g, b)),
            _ => {
                assert(!is_valid_hex(hex@));
                Err(ColorError::InvalidHexCode(hex.to_owned()))
            },
        }
    }

    /// Creates a color from a `#RRGGBB` hex code; the code is validated first,
    /// then true-color support is required.
    pub fn new_hex(hex: &'static str, support: ColorSupport) -> (res: Result<Self, ColorError>)
        ensures
            is_valid_hex(hex@) ==> res == Self::gated(Color::HEX(hex), support),
            !is_valid_hex(hex@) ==> (res matches Err(ColorError::InvalidHexCode(t)) && t@ == hex@),
    {
        match Self::validate_hex(hex) {
            Ok(_) => Self::gate(Color::HEX(hex), support),
            Err(e) => Err(e),
        }
    }

    /// Creates an HSV color; the components are range-checked first, then
    /// true-color support is required.
    pub fn new_hsv(h: u16, s: u8, v: u8, support: ColorSupport) -> (res: Result<Self, ColorError>)
        ensures
            h <= 360 && s <= 100 && v <= 100 ==> res == Self::gated(Color::HSV(h, s, v), support),
            !(h <= 360 && s <= 100 && v <= 100) ==> (res matches Err(ColorError::InvalidColorValue(_))),
    {
        if h > 360 || s > 100 || v > 100 {
            return Err(ColorError::InvalidColorValue("HSV values out of range".to_owned()));
        }
        Self::gate(Color::HSV(h, s, v), support)
    }

    /// Creates an HSL color; the components are range-checked first, then
    /// true-color support is required.
    pub fn new_hsl(h: u16, s: u8, l: u8, support: ColorSupport) -> (res: Result<Self, ColorError>)
        ensures
            h <= 360 && s <= 100 && l <= 100 ==> res == Self::gated(Color::HSL(h, s, l), support),
            !(h <= 360 && s <= 100 && l <= 100) ==> (res matches Err(ColorError::InvalidColorValue(_))),
    {
        if h > 360 || s > 100 || l > 100 {
            return Err(ColorError::InvalidColorValue("HSL values out of range".to_owned()));
        }
        Self::gate(Color::HSL(h, s, l), support)
    }

    /// The RGB channels of a `#RRGGBB` hex code, or `None` when it is malformed.
    pub fn hex_to_rgb(hex: &str) -> (res: Option<(u8, u8, u8)>)
        ensures
            is_valid_hex(hex@) ==> res == Some(hex_channels(hex@)),
            !is_valid_hex(hex@) ==> res is None,
    {
        match Self::validate_hex(hex) {
            Ok(rgb) => Some(rgb),
            Err(_) => None,
        }
    }

    /// Whether this color can be rendered (see `wf`).
    pub fn is_renderable(&self) -> (r: bool)
        ensures
            r == self.wf(),
    {
        match self {
            Color::Color256(code) => *code >= 16,
            Color::HEX(code) => Self::validate_hex(code).is_ok(),
            Color::HSV(h, s, v) => *h <= 360 && *s <= 100 && *v <= 100,
            Color::HSL(h, s, l) => *h <= 360 && *s <= 100 && *l <= 100,
            _ => true,
        }
    }
}

/// A gated color is created exactly when the capability is true color; below
/// it, the error names true color as requested and the given level as available.
pub proof fn gating_follows_capability(c: Color, support: ColorSupport)
    ensures
        support.level() < ColorSupport::TrueColor.level() ==> Color::gated(c, support) == Err::<
            Color,
            ColorError,
        >(ColorError::UnsupportedColorMode(ColorSupport::TrueColor, support)),
        support == ColorSupport::TrueColor ==> Color::gated(c, support) == Ok::<Color, ColorError>(
            c,
        ),
{
}

} // verus!
