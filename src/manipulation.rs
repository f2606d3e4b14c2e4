//! Lightening and darkening of RGB and hex colors.
use vstd::prelude::*;

use crate::color::{hex_channels, is_valid_hex, Color};
use crate::error::ColorError;
use crate::support::ColorSupport;

verus! {

/// A percentage clamped to at most 100.
pub open spec fn clamp_percent(percent: u8) -> int {
    if percent > 100 {
        100
    } else {
        percent as int
    }
}

/// A channel moved toward 255 by `percent` of the remaining distance, truncated.
pub open spec fn lighten_channel(c: u8, percent: u8) -> u8 {
    (c + (255 - c) * clamp_percent(percent) / 100) as u8
}

/// A channel scaled toward 0 by `percent`, truncated.
pub open spec fn darken_channel(c: u8, percent: u8) -> u8 {
    (c * (100 - clamp_percent(percent)) / 100) as u8
}

/// The RGB color whose channels are those of `rgb`, lightened by `percent`.
pub open spec fn lightened(rgb: (u8, u8, u8), percent: u8) -> Color {
    Color::RGB(
        lighten_channel(rgb.0, percent),
        lighten_channel(rgb.1, percent),
        lighten_channel(rgb.2, percent),
    )
}

/// The RGB color whose channels are those of `rgb`, darkened by `percent`.
pub open spec fn darkened(rgb: (u8, u8, u8), percent: u8) -> Color {
    Color::RGB(
        darken_channel(rgb.0, percent),
        darken_channel(rgb.1, percent),
        darken_channel(rgb.2, percent),
    )
}

/// The channels that lightening and darkening work on: those of an RGB color,
/// or those written by a valid hex code. Other colors have none.
pub open spec fn adjustable_channels(c: Color) -> Option<(u8, u8, u8)> {
    match c {
        Color::RGB(r, g, b) => Some((r, g, b)),
        Color::HEX(s) => if is_valid_hex(s@) {
            Some(hex_channels(s@))
        } else {
            None
        },
        _ => None,
    }
}

fn percent_clamped(percent: u8) -> (p: u32)
    ensures
        p as int == clamp_percent(percent),
{
    if percent > 100 {
        100
    } else {
        percent as u32
    }
}

fn lighten_value(c: u8, p: u32) -> (r: u8)
    requires
        p <= 100,
    ensures
        r as int == c + (255 - c) * p / 100,
{
    let room = 255 - c as u32;
    proof {
        assert(room * p <= room * 100 && room * p / 100 <= room) by (nonlinear_arith)
            requires
                p <= 100,
        ;
    }
    (c as u32 + room * p / 100) as u8
}

fn darken_value(c: u8, p: u32) -> (r: u8)
    requires
        p <= 100,
    ensures
        r as int == c * (100 - p) / 100,
{
    let keep = 100 - p;
    proof {
        assert(c * keep <= c * 100 && c * keep / 100 <= c) by (nonlinear_arith)
            requires
                keep <= 100,
        ;
    }
    (c as u32 * keep / 100) as u8
}

impl Color {
    /// Lightens an RGB or hex color by `percent` (clamped to 100); the result
    /// is an RGB color, which requires true-color support. Other colors are
    /// returned unchanged.
    pub fn lighten(self, percent: u8, support: ColorSupport) -> (res: Result<Self, ColorError>)
        ensures
            adjustable_channels(self) matches Some(ch) ==> res == Color::gated(
                lightened(ch, percent),
                support,
            ),
            self matches Color::HEX(s) ==> (!is_valid_hex(s@) ==> (res matches Err(
                ColorError::InvalidHexCode(t),
            ) && t@ == s@)),
            !(self is RGB) && !(self is HEX) ==> res == Ok::<Color, ColorError>(self),
    {
        let p = percent_clamped(percent);
        let (r, g, b) = match self {
            Color::RGB(r, g, b) => (r, g, b),
            Color::HEX(hex) => match Self::validate_hex(hex) {
                Ok(rgb) => rgb,
                Err(e) => return Err(e),
            },
            _ => return Ok(self),
        };
        Color::new_rgb(lighten_value(r, p), lighten_value(g, p), lighten_value(b, p), support)
    }

    /// Darkens an RGB or hex color by `percent` (clamped to 100); the result
    /// is an RGB color, which requires true-color support. Other colors are
    /// returned unchanged.
    pub fn darken(self, percent: u8, support: ColorSupport) -> (res: Result<Self, ColorError>)
        ensures
            adjustable_channels(self) matches Some(ch) ==> res == Color::gated(
                darkened(ch, percent),
                support,
            ),
            self matches Color::HEX(s) ==> (!is_valid_hex(s@) ==> (res matches Err(
                ColorError::InvalidHexCode(t),
            ) && t@ == s@)),
            !(self is RGB) && !(self is HEX) ==> res == Ok::<Color, ColorError>(self),
    {
        let p = percent_clamped(percent);
        let (r, g, b) = match self {
            Color::RGB(r, g, b) => (r, g, b),
            Color::HEX(hex) => match Self::validate_hex(hex) {
                Ok(rgb) => rgb,
                Err(e) => return Err(e),
            },
            _ => return Ok(self),
        };
        Color::new_rgb(darken_value(r, p), darken_value(g, p), darken_value(b, p), support)
    }
}

proof fn channel_bounds(c: u8, percent: u8)
    ensures
        lighten_channel(c, 0) == c,
        darken_channel(c, 0) == c,
        lighten_channel(c, 100) == 255,
        darken_channel(c, 100) == 0,
        lighten_channel(c, percent) >= c,
        darken_channel(c, percent) <= c,
{
    let p = clamp_percent(percent);
    assert(0 <= (255 - c) * p / 100 <= 255 - c && 0 <= c * (100 - p) / 100 <= c) by (nonlinear_arith)
        requires
            0 <= p <= 100,
            0 <= c <= 255,
    ;
    assert((255 - c) * 100 / 100 == 255 - c && c * 100 / 100 == c) by (nonlinear_arith);
    assert((255 - c) * 0 / 100 == 0 && c * 0 / 100 == 0) by (nonlinear_arith);
}

/// Lightening or darkening by 0% keeps every channel; lightening by 100%
/// drives every channel to 255 and darkening by 100% drives every channel to 0.
/// For any percentage, lightening never lowers a channel and darkening never
/// raises one.
pub proof fn lighten_darken_bounds(r: u8, g: u8, b: u8, percent: u8)
    ensures
        lightened((r, g, b), 0) == Color::RGB(r, g, b),
        darkened((r, g, b), 0) == Color::RGB(r, g, b),
        lightened((r, g, b), 100) == Color::RGB(255, 255, 255),
        darkened((r, g, b), 100) == Color::RGB(0, 0, 0),
        lighten_channel(r, percent) >= r && lighten_channel(g, percent) >= g
            && lighten_channel(b, percent) >= b,
        darken_channel(r, percent) <= r && darken_channel(g, percent) <= g
            && darken_channel(b, percent) <= b,
{
    channel_bounds(r, percent);
    channel_bounds(g, percent);
    channel_bounds(b, percent);
}

} // verus!
