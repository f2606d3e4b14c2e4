//! ANSI SGR escape sequences for colors and text attributes.
use vstd::prelude::*;

use crate::color::{hex_channels, Color};
use crate::convert::{hsl_rgb, hsv_rgb};

verus! {

/// The character of decimal digit `d` (0-9).
pub open spec fn digit_char(d: int) -> char {
    if d == 0 {
        '0'
    } else if d == 1 {
        '1'
    } else if d == 2 {
        '2'
    } else if d == 3 {
        '3'
    } else if d == 4 {
        '4'
    } else if d == 5 {
        '5'
    } else if d == 6 {
        '6'
    } else if d == 7 {
        '7'
    } else if d == 8 {
        '8'
    } else {
        '9'
    }
}

/// The decimal digits of `n`, without leading zeros.
pub open spec fn decimal(n: nat) -> Seq<char>
    decreases n,
{
    if n < 10 {
        seq![digit_char(n as int)]
    } else {
        decimal(n / 10).push(digit_char((n % 10) as int))
    }
}

/// A Select Graphic Rendition sequence: `ESC [ body m`.
pub open spec fn sgr(body: Seq<char>) -> Seq<char> {
    seq!['\x1b', '['] + body + seq!['m']
}

/// The layer digit: 3 for the foreground, 4 for the background.
pub open spec fn layer_char(background: bool) -> char {
    if background {
        '4'
    } else {
        '3'
    }
}

/// `ESC [ 38;2;R;G;B m` (foreground) or `ESC [ 48;2;R;G;B m` (background).
pub open spec fn rgb_escape(background: bool, r: u8, g: u8, b: u8) -> Seq<char> {
    sgr(
        seq![layer_char(background), '8', ';', '2', ';'] + decimal(r as nat) + seq![';']
            + decimal(g as nat) + seq![';'] + decimal(b as nat),
    )
}

/// `ESC [ 38;5;N m` (foreground) or `ESC [ 48;5;N m` (background).
pub open spec fn indexed_escape(background: bool, code: u8) -> Seq<char> {
    sgr(seq![layer_char(background), '8', ';', '5', ';'] + decimal(code as nat))
}

/// Palette position (0-7) of a named color.
pub open spec fn named_index(c: Color) -> Option<int> {
    match c {
        Color::Black => Some(0),
        Color::Red => Some(1),
        Color::Green => Some(2),
        Color::Yellow => Some(3),
        Color::Blue => Some(4),
        Color::Magenta => Some(5),
        Color::Cyan => Some(6),
        Color::White => Some(7),
        _ => None,
    }
}

/// The escape text that sets `c` as the foreground or background color: named
/// colors as `3N`/`4N`, no text for `Empty`, palette codes as indexed colors,
/// and RGB, hex, HSV and HSL colors as 24-bit colors.
pub open spec fn color_escape(c: Color, background: bool) -> Seq<char> {
    match c {
        Color::Empty => Seq::empty(),
        Color::RGB(r, g, b) => rgb_escape(background, r, g, b),
        Color::Color256(code) => indexed_escape(background, code),
        Color::HEX(s) => {
            let ch = hex_channels(s@);
            rgb_escape(background, ch.0, ch.1, ch.2)
        },
        Color::HSV(h, s, v) => {
            let ch = hsv_rgb(h, s, v);
            rgb_escape(background, ch.0, ch.1, ch.2)
        },
        Color::HSL(h, s, l) => {
            let ch = hsl_rgb(h, s, l);
            rgb_escape(background, ch.0, ch.1, ch.2)
        },
        _ => sgr(seq![layer_char(background), digit_char(named_index(c)->0)]),
    }
}

/// `ESC [ 0 m`: resets all attributes.
pub open spec fn reset_escape() -> Seq<char> {
    sgr(seq!['0'])
}

fn digit_text(d: u8) -> (t: &'static str)
    requires
        d < 10,
    ensures
        t@ == seq![digit_char(d as int)],
{
    match d {
        0 => {
            proof { reveal_strlit("0"); }
            "0"
        },
        1 => {
            proof { reveal_strlit("1"); }
            "1"
        },
        2 => {
            proof { reveal_strlit("2"); }
            "2"
        },
        3 => {
            proof { reveal_strlit("3"); }
            "3"
        },
        4 => {
            proof { reveal_strlit("4"); }
            "4"
        },
        5 => {
            proof { reveal_strlit("5"); }
            "5"
        },
        6 => {
            proof { reveal_strlit("6"); }
            "6"
        },
        7 => {
            proof { reveal_strlit("7"); }
            "7"
        },
        8 => {
            proof { reveal_strlit("8"); }
            "8"
        },
        _ => {
            proof { reveal_strlit("9"); }
            "9"
        },
    }
}

fn push_decimal(out: &mut String, n: u8)
    ensures
        final(out)@ == old(out)@ + decimal(n as nat),
{
    proof {
        reveal_with_fuel(decimal, 3);
    }
    if n >= 100 {
        out.append(digit_text(n / 100));
    }
    if n >= 10 {
        out.append(digit_text(n / 10 % 10));
    }
    out.append(digit_text(n % 10));
    proof {
        if n >= 100 {
            assert(decimal(n as nat) =~= seq![
                digit_char((n / 100) as int),
                digit_char((n / 10 % 10) as int),
                digit_char((n % 10) as int),
            ]);
        } else if n >= 10 {
            assert(decimal(n as nat) =~= seq![
                digit_char((n / 10) as int),
                digit_char((n % 10) as int),
            ]);
        }
    }
}

fn open_sequence(background: bool) -> (out: String)
    ensures
        out@ == seq!['\x1b', '[', layer_char(background)],
{
    let mut out = String::new();
    proof {
        reveal_strlit("\x1b[");
    }
    out.append("\x1b[");
    out.append(digit_text(if background { 4 } else { 3 }));
    proof {
        assert(out@ =~= seq!['\x1b', '[', layer_char(background)]);
    }
    out
}

fn rgb_sequence(background: bool, r: u8, g: u8, b: u8) -> (out: String)
    ensures
        out@ == rgb_escape(background, r, g, b),
{
    let mut out = open_sequence(background);
    proof {
        reveal_strlit("8;2;");
        reveal_strlit(";");
        reveal_strlit("m");
    }
    out.append("8;2;");
    push_decimal(&mut out, r);
    out.append(";");
    push_decimal(&mut out, g);
    out.append(";");
    push_decimal(&mut out, b);
    out.append("m");
    proof {
        assert(out@ =~= rgb_escape(background, r, g, b));
    }
    out
}

fn indexed_sequence(background: bool, code: u8) -> (out: String)
    ensures
        out@ == indexed_escape(background, code),
{
    let mut out = open_sequence(background);
    proof {
        reveal_strlit("8;5;");
        reveal_strlit("m");
    }
    out.append("8;5;");
    push_decimal(&mut out, code);
    out.append("m");
    proof {
        assert(out@ =~= indexed_escape(background, code));
    }
    out
}

/// The 24-bit foreground sequence `ESC [ 38;2;R;G;B m`.
pub fn fg_rgb(r: u8, g: u8, b: u8) -> (out: String)
    ensures
        out@ == rgb_escape(false, r, g, b),
{
    rgb_sequence(false, r, g, b)
}

/// The 24-bit background sequence `ESC [ 48;2;R;G;B m`.
pub fn bg_rgb(r: u8, g: u8, b: u8) -> (out: String)
    ensures
        out@ == rgb_escape(true, r, g, b),
{
    rgb_sequence(true, r, g, b)
}

/// The indexed foreground sequence `ESC [ 38;5;N m`, for palette codes 16-255.
pub fn fg_256(code: u8) -> (out: String)
    requires
        code >= 16,
    ensures
        out@ == indexed_escape(false, code),
{
    indexed_sequence(false, code)
}

/// The indexed background sequence `ESC [ 48;5;N m`, for palette codes 16-255.
pub fn bg_256(code: u8) -> (out: String)
    requires
        code >= 16,
    ensures
        out@ == indexed_escape(true, code),
{
    indexed_sequence(true, code)
}

/// `ESC [ code m` for a single-digit SGR code.
pub(crate) fn sgr_digit(code: u8) -> (out: String)
    requires
        code < 10,
    ensures
        out@ == sgr(seq![digit_char(code as int)]),
{
    let mut out = String::new();
    proof {
        reveal_strlit("\x1b[");
        reveal_strlit("m");
    }
    out.append("\x1b[");
    out.append(digit_text(code));
    out.append("m");
    proof {
        assert(out@ =~= sgr(seq![digit_char(code as int)]));
    }
    out
}

fn named_sequence(background: bool, index: u8) -> (out: String)
    requires
        index < 8,
    ensures
        out@ == sgr(seq![layer_char(background), digit_char(index as int)]),
{
    let mut out = open_sequence(background);
    proof {
        reveal_strlit("m");
    }
    out.append(digit_text(index));
    out.append("m");
    proof {
        assert(out@ =~= sgr(seq![layer_char(background), digit_char(index as int)]));
    }
    out
}

impl Color {
    fn escape(self, background: bool) -> (out: String)
        requires
            self.wf(),
        ensures
            out@ == color_escape(self, background),
    {
        match self {
            Color::Black => named_sequence(background, 0),
            Color::Red => named_sequence(background, 1),
            Color::Green => named_sequence(background, 2),
            Color::Yellow => named_sequence(background, 3),
            Color::Blue => named_sequence(background, 4),
            Color::Magenta => named_sequence(background, 5),
            Color::Cyan => named_sequence(background, 6),
            Color::White => named_sequence(background, 7),
            Color::Empty => String::new(),
            Color::RGB(r, g, b) => rgb_sequence(background, r, g, b),
            Color::Color256(code) => indexed_sequence(background, code),
            Color::HEX(code) => match Color::validate_hex(code) {
                Ok((r, g, b)) => rgb_sequence(background, r, g, b),
                Err(_) => String::new(),
            },
            Color::HSV(h, s, v) => match Color::hsv_to_rgb(h, s, v) {
                Ok((r, g, b)) => rgb_sequence(background, r, g, b),
                Err(_) => String::new(),
            },
            Color::HSL(h, s, l) => match Color::hsl_to_rgb(h, s, l) {
                Ok((r, g, b)) => rgb_sequence(background, r, g, b),
                Err(_) => String::new(),
            },
        }
    }

    /// The escape sequence that sets this color as the foreground (text) color.
    pub fn to_fg(self) -> (out: String)
        requires
            self.wf(),
        ensures
            out@ == color_escape(self, false),
    {
        self.escape(false)
    }

    /// The escape sequence that sets this color as the background color.
    pub fn to_bg(self) -> (out: String)
        requires
            self.wf(),
        ensures
            out@ == color_escape(self, true),
    {
        self.escape(true)
    }
}

} // verus!
