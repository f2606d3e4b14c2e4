//! Color-space conversions: HSV and HSL to RGB, RGB to the 256-color palette,
//! and RGB to the nearest basic ANSI color.
use vstd::arithmetic::div_mod::lemma_div_is_ordered;
use vstd::prelude::*;

use crate::color::Color;
use crate::error::ColorError;

verus! {

/// `n / d` rounded to the nearest integer, halves rounding up (for `n >= 0`, `d > 0`).
pub open spec fn round_div(n: int, d: int) -> int {
    (2 * n + d) / (2 * d)
}

/// Step of the 24-level grayscale ramp nearest to gray level `v`.
pub open spec fn gray_step(v: u8) -> int {
    round_div(v * 23, 255)
}

/// Index (0..=5) of the 6x6x6 color-cube level nearest to channel `v`.
pub open spec fn cube_step(v: u8) -> int {
    round_div(v * 5, 255)
}

/// The 256-color palette code nearest to an RGB color.
pub open spec fn palette_code(r: u8, g: u8, b: u8) -> int {
    if r == g && g == b {
        if r == 0 {
            16
        } else if r == 255 {
            231
        } else {
            232 + gray_step(r)
        }
    } else {
        16 + 36 * cube_step(r) + 6 * cube_step(g) + cube_step(b)
    }
}

fn cube_index(v: u8) -> (r: u8)
    ensures
        r as int == cube_step(v),
        r <= 5,
{
    ((v as u32 * 10 + 255) / 510) as u8
}

/// `60 - |h mod 120 - 60|`: the secondary component of hue `h`, in sixtieths
/// of the chroma (`1 - |(h / 60) mod 2 - 1|` scaled by 60).
pub open spec fn hue_ramp(h: int) -> int {
    let d = h % 120 - 60;
    60 - (if d < 0 { -d } else { d })
}

/// The six-sector table: the (red, green, blue) components before the match
/// value is added, for sector `k`, chroma `c` and secondary component `x`.
pub open spec fn sector_pick(k: int, c: int, x: int) -> (int, int, int) {
    if k == 0 {
        (c, x, 0)
    } else if k == 1 {
        (x, c, 0)
    } else if k == 2 {
        (0, c, x)
    } else if k == 3 {
        (0, x, c)
    } else if k == 4 {
        (x, 0, c)
    } else if k == 5 {
        (c, 0, x)
    } else {
        (0, 0, 0)
    }
}

/// HSV to RGB in exact arithmetic. With `V = v/100` and `S = s/100`, the chroma
/// is `V*S`, the secondary component `V*S*hue_ramp(h)/60` and the match value
/// `V - V*S`; all three are held here in units of 1/600000. Each channel is
/// `(component + match) * 255`, rounded to the nearest integer.
pub open spec fn hsv_rgb(h: u16, s: u8, v: u8) -> (u8, u8, u8) {
    let vs = v * s;
    let c = 60 * vs;
    let x = vs * hue_ramp(h as int);
    let m = 6000 * v - 60 * vs;
    let p = sector_pick(h as int / 60, c, x);
    (
        round_div(255 * (p.0 + m), 600000) as u8,
        round_div(255 * (p.1 + m), 600000) as u8,
        round_div(255 * (p.2 + m), 600000) as u8,
    )
}

/// `100 * (1 - |2L - 1|)` for lightness `L = l/100`.
pub open spec fn hsl_width(l: u8) -> int {
    let d = 2 * l - 100;
    100 - (if d < 0 { -d } else { d })
}

/// HSL to RGB in exact arithmetic. With `L = l/100` and `S = s/100`, the chroma
/// is `(1 - |2L - 1|) * S`, the secondary component `chroma*hue_ramp(h)/60` and
/// the match value `L - chroma/2`; all three are held here in units of
/// 1/1200000. Each channel is `(component + match) * 255`, truncated.
pub open spec fn hsl_rgb(h: u16, s: u8, l: u8) -> (u8, u8, u8) {
    let w = hsl_width(l);
    let ws = w * s;
    let c = 120 * ws;
    let x = 2 * ws * hue_ramp(h as int);
    let m = 12000 * l - 60 * ws;
    let p = sector_pick(h as int / 60, c, x);
    (
        (255 * (p.0 + m) / 1200000) as u8,
        (255 * (p.1 + m) / 1200000) as u8,
        (255 * (p.2 + m) / 1200000) as u8,
    )
}

/// Relative luminance (ITU-R BT.709) scaled by 2,550,000:
/// `(0.2126 r + 0.7152 g + 0.0722 b) / 255 == luma(r, g, b) / 2550000`.
pub open spec fn luma(r: u8, g: u8, b: u8) -> int {
    2126 * r + 7152 * g + 722 * b
}

/// The largest of three channels.
pub open spec fn max3(r: u8, g: u8, b: u8) -> int {
    if r >= g && r >= b {
        r as int
    } else if g >= b {
        g as int
    } else {
        b as int
    }
}

/// The smallest of three channels.
pub open spec fn min3(r: u8, g: u8, b: u8) -> int {
    if r <= g && r <= b {
        r as int
    } else if g <= b {
        g as int
    } else {
        b as int
    }
}

/// Very dark, very light and low-saturation colors.
pub open spec fn extreme_color(r: u8, g: u8, b: u8) -> Option<Color> {
    if r < 10 && g < 10 && b < 10 {
        Some(Color::Black)
    } else if r > 245 && g > 245 && b > 245 {
        Some(Color::White)
    } else if max3(r, g, b) - min3(r, g, b) < 20 {
        // luminance < 0.5
        Some(if luma(r, g, b) < 1275000 { Color::Black } else { Color::White })
    } else {
        None
    }
}

/// Browns/yellows, purples/magentas and cyans; the ratios of the rules
/// (`g/r > 0.4`, `r/b > 0.4`, `b/r > 0.4`, `g/b > 0.65`, `b/g > 0.65`) and
/// `b < g/2` are written cross-multiplied, their denominators being positive.
pub open spec fn special_color(r: u8, g: u8, b: u8) -> Option<Color> {
    if r > g && g > b && 10 * g > 4 * r && 2 * b < g {
        Some(Color::Yellow)
    } else if r > 0 && b > 0 && g < r && g < b && (10 * r > 4 * b || 10 * b > 4 * r) {
        Some(Color::Magenta)
    } else if g > 0 && b > 0 && r < g && r < b && 100 * g > 65 * b && 100 * b > 65 * g {
        Some(Color::Cyan)
    } else {
        None
    }
}

/// The color of the single dominant channel, or of a tie between channels.
pub open spec fn dominant_color(r: u8, g: u8, b: u8) -> Color {
    let rd = r >= g && r >= b;
    let gd = g >= r && g >= b;
    let bd = b >= r && b >= g;
    if rd && !gd && !bd {
        if g > 64 && g > r / 3 { Color::Yellow } else { Color::Red }
    } else if !rd && gd && !bd {
        if b > 64 && b > g / 3 { Color::Cyan } else { Color::Green }
    } else if !rd && !gd && bd {
        // g/b < 0.65
        if 100 * g < 65 * b {
            Color::Blue
        } else if r > 64 && r > b / 3 {
            Color::Magenta
        } else {
            Color::Cyan
        }
    } else if r > 128 && g > 128 && b < 128 {
        Color::Yellow
    } else if r > 128 && b > 128 && g < 128 {
        Color::Magenta
    } else if g > 128 && b > 128 && r < 128 {
        Color::Cyan
    } else if luma(r, g, b) > 1530000 {
        // luminance > 0.6
        Color::White
    } else {
        Color::Black
    }
}

/// The basic ANSI color of an RGB color: the first rule that matches, in the
/// order extreme, special, dominant.
pub open spec fn basic_color(r: u8, g: u8, b: u8) -> Color {
    match extreme_color(r, g, b) {
        Some(c) => c,
        None => match special_color(r, g, b) {
            Some(c) => c,
            None => dominant_color(r, g, b),
        },
    }
}

/// Whether a color is one of the eight named basic colors.
pub open spec fn is_named(c: Color) -> bool {
    match c {
        Color::Black | Color::Red | Color::Green | Color::Yellow | Color::Blue | Color::Magenta
        | Color::Cyan | Color::White => true,
        _ => false,
    }
}

fn luma_of(r: u8, g: u8, b: u8) -> (l: u32)
    ensures
        l as int == luma(r, g, b),
{
    2126 * r as u32 + 7152 * g as u32 + 722 * b as u32
}

fn extreme_cases(r: u8, g: u8, b: u8) -> (res: Option<Color>)
    ensures
        res == extreme_color(r, g, b),
{
    if r < 10 && g < 10 && b < 10 {
        return Some(Color::Black);
    }
    if r > 245 && g > 245 && b > 245 {
        return Some(Color::White);
    }
    let max = if r >= g && r >= b {
        r
    } else if g >= b {
        g
    } else {
        b
    };
    let min = if r <= g && r <= b {
        r
    } else if g <= b {
        g
    } else {
        b
    };
    if max - min < 20 {
        return Some(
            if luma_of(r, g, b) < 1275000 {
                Color::Black
            } else {
                Color::White
            },
        );
    }
    None
}

fn special_colors(r: u8, g: u8, b: u8) -> (res: Option<Color>)
    ensures
        res == special_color(r, g, b),
{
    let (r32, g32, b32) = (r as u32, g as u32, b as u32);
    if r > g && g > b && 10 * g32 > 4 * r32 && 2 * b32 < g32 {
        return Some(Color::Yellow);
    }
    if r > 0 && b > 0 && g < r && g < b && (10 * r32 > 4 * b32 || 10 * b32 > 4 * r32) {
        return Some(Color::Magenta);
    }
    if g > 0 && b > 0 && r < g && r < b && 100 * g32 > 65 * b32 && 100 * b32 > 65 * g32 {
        return Some(Color::Cyan);
    }
    None
}

fn dominant(r: u8, g: u8, b: u8) -> (res: Color)
    ensures
        res == dominant_color(r, g, b),
{
    let rd = r >= g && r >= b;
    let gd = g >= r && g >= b;
    let bd = b >= r && b >= g;
    if rd && !gd && !bd {
        if g > 64 && g > r / 3 {
            Color::Yellow
        } else {
            Color::Red
        }
    } else if !rd && gd && !bd {
        if b > 64 && b > g / 3 {
            Color::Cyan
        } else {
            Color::Green
        }
    } else if !rd && !gd && bd {
        if 100 * (g as u32) < 65 * (b as u32) {
            Color::Blue
        } else if r > 64 && r > b / 3 {
            Color::Magenta
        } else {
            Color::Cyan
        }
    } else if r > 128 && g > 128 && b < 128 {
        Color::Yellow
    } else if r > 128 && b > 128 && g < 128 {
        Color::Magenta
    } else if g > 128 && b > 128 && r < 128 {
        Color::Cyan
    } else if luma_of(r, g, b) > 1530000 {
        Color::White
    } else {
        Color::Black
    }
}

fn hue_ramp_of(h: u16) -> (r: u64)
    ensures
        r as int == hue_ramp(h as int),
        r <= 60,
{
    let d = h % 120;
    if d < 60 {
        (d + 0) as u64
    } else {
        (120 - d) as u64
    }
}

fn pick(k: u16, c: u64, x: u64) -> (r: (u64, u64, u64))
    ensures
        (r.0 as int, r.1 as int, r.2 as int) == sector_pick(k as int, c as int, x as int),
{
    match k {
        0 => (c, x, 0),
        1 => (x, c, 0),
        2 => (0, c, x),
        3 => (0, x, c),
        4 => (x, 0, c),
        5 => (c, 0, x),
        _ => (0, 0, 0),
    }
}

fn hsv_channel(n: u64) -> (r: u8)
    requires
        n <= 600000,
    ensures
        r as int == round_div(255 * n, 600000),
{
    let t: u64 = 510 * n + 600000;
    proof {
        assert(t / 1200000 <= 255) by (nonlinear_arith)
            requires
                t <= 306600000,
        ;
    }
    (t / 1200000) as u8
}

fn hsl_channel(n: u64) -> (r: u8)
    requires
        n <= 1200000,
    ensures
        r as int == 255 * n / 1200000,
{
    let t: u64 = 255 * n;
    proof {
        assert(t / 1200000 <= 255) by (nonlinear_arith)
            requires
                t <= 306000000,
        ;
    }
    (t / 1200000) as u8
}

impl Color {
    /// Converts HSV (hue 0-360, saturation 0-100, value 0-100) to RGB.
    pub fn hsv_to_rgb(h: u16, s: u8, v: u8) -> (res: Result<(u8, u8, u8), ColorError>)
        ensures
            h <= 360 && s <= 100 && v <= 100 ==> res == Ok::<(u8, u8, u8), ColorError>(
                hsv_rgb(h, s, v),
            ),
            !(h <= 360 && s <= 100 && v <= 100) ==> (res matches Err(
                ColorError::InvalidColorValue(_),
            )),
    {
        if h > 360 || s > 100 || v > 100 {
            return Err(ColorError::InvalidColorValue("HSV values out of range".to_owned()));
        }
        proof {
            assert(v * s <= 10000) by (nonlinear_arith)
                requires
                    v <= 100,
                    s <= 100,
            ;
        }
        let vs = v as u64 * s as u64;
        proof {
            assert(vs <= 100 * v) by (nonlinear_arith)
                requires
                    vs == v * s,
                    s <= 100,
            ;
        }
        let t = hue_ramp_of(h);
        proof {
            assert(vs * t <= 60 * vs) by (nonlinear_arith)
                requires
                    t <= 60,
            ;
        }
        let c = 60 * vs;
        let x = vs * t;
        let m = 6000 * v as u64 - 60 * vs;
        let p = pick(h / 60, c, x);
        Ok((hsv_channel(p.0 + m), hsv_channel(p.1 + m), hsv_channel(p.2 + m)))
    }

    /// Converts HSL (hue 0-360, saturation 0-100, lightness 0-100) to RGB.
    pub fn hsl_to_rgb(h: u16, s: u8, l: u8) -> (res: Result<(u8, u8, u8), ColorError>)
        ensures
            h <= 360 && s <= 100 && l <= 100 ==> res == Ok::<(u8, u8, u8), ColorError>(
                hsl_rgb(h, s, l),
            ),
            !(h <= 360 && s <= 100 && l <= 100) ==> (res matches Err(
                ColorError::InvalidColorValue(_),
            )),
    {
        if h > 360 || s > 100 || l > 100 {
            return Err(ColorError::InvalidColorValue("HSL values out of range".to_owned()));
        }
        let w: u64 = if l <= 50 {
            2 * l as u64
        } else {
            200 - 2 * l as u64
        };
        proof {
            assert(w * s <= 10000) by (nonlinear_arith)
                requires
                    w <= 100,
                    s <= 100,
            ;
        }
        let ws = w * s as u64;
        proof {
            assert(ws <= 100 * w) by (nonlinear_arith)
                requires
                    ws == w * s,
                    s <= 100,
            ;
            assert(60 * ws <= 12000 * l && 60 * ws + 12000 * l <= 1200000) by (nonlinear_arith)
                requires
                    ws <= 100 * w,
                    l <= 100,
                    l <= 50 ==> w == 2 * l,
                    l > 50 ==> w == 200 - 2 * l,
            ;
        }
        let t = hue_ramp_of(h);
        proof {
            assert(2 * ws * t <= 120 * ws) by (nonlinear_arith)
                requires
                    t <= 60,
            ;
        }
        let c = 120 * ws;
        let x = 2 * ws * t;
        let m = 12000 * l as u64 - 60 * ws;
        let p = pick(h / 60, c, x);
        Ok((hsl_channel(p.0 + m), hsl_channel(p.1 + m), hsl_channel(p.2 + m)))
    }

    /// The nearest 256-color palette code (16-255) to an RGB color: the
    /// grayscale ramp for achromatic colors, else the 6x6x6 color cube.
    pub fn rgb_to_256(r: u8, g: u8, b: u8) -> (code: u8)
        ensures
            code as int == palette_code(r, g, b),
            code >= 16,
    {
        if r == g && g == b {
            if r == 0 {
                return 16;
            }
            if r == 255 {
                return 231;
            }
            return 232 + ((r as u32 * 46 + 255) / 510) as u8;
        }
        16 + 36 * cube_index(r) + 6 * cube_index(g) + cube_index(b)
    }

    /// Splits a code into `(code / 36, (code % 36) / 6, code % 6)`: cube
    /// indices, not 0-255 channel values.
    pub fn code_to_rgb(code: u8) -> (res: (u8, u8, u8))
        ensures
            res == (code / 36, (code % 36) / 6, code % 6),
    {
        (code / 36, (code % 36) / 6, code % 6)
    }

    /// The nearest basic ANSI color to an RGB color, by an ordered list of
    /// rules: extreme dark/light and low saturation, then special hues, then
    /// the dominant channel.
    pub fn rgb_to_basic(r: u8, g: u8, b: u8) -> (c: Color)
        ensures
            c == basic_color(r, g, b),
            is_named(c),
    {
        if let Some(c) = extreme_cases(r, g, b) {
            return c;
        }
        if let Some(c) = special_colors(r, g, b) {
            return c;
        }
        dominant(r, g, b)
    }
}

/// Along the gray axis the palette code does not decrease as the level rises,
/// from black up to the last gray below white; black maps to 16 and white to 231.
/// (White itself, at 231, lies below the grays 232-255, so the order stops
/// short of it.)
pub proof fn gray_codes_ascend(a: u8, b: u8)
    requires
        a <= b,
        b < 255,
    ensures
        palette_code(a, a, a) <= palette_code(b, b, b),
        palette_code(0, 0, 0) == 16,
        palette_code(255, 255, 255) == 231,
{
    if a > 0 {
        lemma_div_is_ordered(2 * (a * 23) + 255, 2 * (b * 23) + 255, 510);
    } else {
        assert(palette_code(b, b, b) >= 16);
    }
}

} // verus!
