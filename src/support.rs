//! Terminal color capability levels, and how the environment's signals decide them.
use vstd::prelude::*;

use crate::error::ColorError;
use crate::text::{contains_text, has_infix, lower_of, lowercase, same_text};

verus! {

/// Terminal color support levels, ordered from least to most capable.
#[derive(Debug, Clone, Copy, PartialEq, Eq, Structural, PartialOrd, Ord, Hash)]
pub enum ColorSupport {
    NoColor,
    /// 16 colors.
    Basic,
    /// 256 colors.
    Color256,
    /// 16 million colors.
    TrueColor,
}

impl ColorSupport {
    /// Position of the level in the order NoColor < Basic < Color256 < TrueColor.
    pub open spec fn level(self) -> nat {
        match self {
            ColorSupport::NoColor => 0,
            ColorSupport::Basic => 1,
            ColorSupport::Color256 => 2,
            ColorSupport::TrueColor => 3,
        }
    }

    fn rank(&self) -> (r: u8)
        ensures
            r as nat == self.level(),
    {
        match self {
            ColorSupport::NoColor => 0,
            ColorSupport::Basic => 1,
            ColorSupport::Color256 => 2,
            ColorSupport::TrueColor => 3,
        }
    }

    /// The level's display name.
    pub open spec fn name(self) -> Seq<char> {
        match self {
            ColorSupport::NoColor => "No Color"@,
            ColorSupport::Basic => "Basic"@,
            ColorSupport::Color256 => "Color256"@,
            ColorSupport::TrueColor => "TrueColor"@,
        }
    }

    /// The level's display name.
    #[allow(clippy::inherent_to_string)]
    pub fn to_string(&self) -> (s: String)
        ensures
            s@ == self.name(),
    {
        match self {
            ColorSupport::NoColor => "No Color".to_owned(),
            ColorSupport::Basic => "Basic".to_owned(),
            ColorSupport::Color256 => "Color256".to_owned(),
            ColorSupport::TrueColor => "TrueColor".to_owned(),
        }
    }

    /// Whether this level can handle the `required` level.
    pub fn supports(&self, required: ColorSupport) -> (r: bool)
        ensures
            r == (self.level() >= required.level()),
    {
        self.rank() >= required.rank()
    }
}

/// A `TERM` value (lowercased) that names a terminal known to support true color.
pub open spec fn is_truecolor_term(term: Seq<char>) -> bool {
    has_infix(term, "xterm-truecolor"@) || has_infix(term, "konsole"@) || has_infix(term, "tmux"@)
        || has_infix(term, "screen-truecolor"@) || has_infix(term, "alacritty"@) || has_infix(
        term,
        "kitty"@,
    ) || has_infix(term, "terminator"@) || has_infix(term, "terminology"@) || has_infix(
        term,
        "eterm"@,
    ) || has_infix(term, "rxvt-unicode"@) || has_infix(term, "xterm-ghostty"@) || has_infix(
        term,
        "vte"@,
    ) || has_infix(term, "termious"@)
}

/// A `TERM_PROGRAM` value that names a terminal known to support true color.
pub open spec fn is_truecolor_program(program: Seq<char>) -> bool {
    program == "iTerm.app"@ || program == "Apple_Terminal"@ || program == "Hyper"@
}

/// The level that the signals show before `CLICOLOR_FORCE` is applied.
pub open spec fn signalled_level(colorterm: Seq<char>, term: Seq<char>, program: Seq<char>) -> ColorSupport {
    if has_infix(colorterm, "truecolor"@) || has_infix(colorterm, "24bit"@) || is_truecolor_term(
        term,
    ) || is_truecolor_program(program) {
        ColorSupport::TrueColor
    } else if has_infix(term, "256color"@) || has_infix(term, "256"@) {
        ColorSupport::Color256
    } else if has_infix(term, "color"@) || has_infix(term, "ansi"@) || has_infix(term, "xterm"@)
        || has_infix(term, "screen"@) {
        ColorSupport::Basic
    } else {
        ColorSupport::NoColor
    }
}

/// The capability level shown by the environment: `NO_COLOR` set, or
/// `CLICOLOR` equal to `0`, disable color; otherwise the level signalled by
/// `COLORTERM`, the lowercased `TERM` and `TERM_PROGRAM`, raised to `Basic`
/// when it is `NoColor` and `CLICOLOR_FORCE` is `1`.
pub open spec fn detected_level(
    no_color: bool,
    clicolor: Seq<char>,
    colorterm: Seq<char>,
    term_lower: Seq<char>,
    program: Seq<char>,
    clicolor_force: Seq<char>,
) -> ColorSupport {
    if no_color || clicolor == "0"@ {
        ColorSupport::NoColor
    } else {
        let level = signalled_level(colorterm, term_lower, program);
        if level == ColorSupport::NoColor && clicolor_force == "1"@ {
            ColorSupport::Basic
        } else {
            level
        }
    }
}

fn is_truecolor_term_text(term: &str) -> (r: bool)
    ensures
        r == is_truecolor_term(term@),
{
    contains_text(term, "xterm-truecolor") || contains_text(term, "konsole") || contains_text(
        term,
        "tmux",
    ) || contains_text(term, "screen-truecolor") || contains_text(term, "alacritty")
        || contains_text(term, "kitty") || contains_text(term, "terminator") || contains_text(
        term,
        "terminology",
    ) || contains_text(term, "eterm") || contains_text(term, "rxvt-unicode") || contains_text(
        term,
        "xterm-ghostty",
    ) || contains_text(term, "vte") || contains_text(term, "termious")
}

/// Decides the terminal's color capability from the values of the environment
/// variables that signal it, with `TERM` already lowercased. `no_color` tells
/// whether `NO_COLOR` is set; each text is the variable's value, empty when it
/// is unset.
pub fn detect_from_lowercase_term(
    no_color: bool,
    clicolor: &str,
    colorterm: &str,
    term_lower: &str,
    term_program: &str,
    clicolor_force: &str,
) -> (level: ColorSupport)
    ensures
        level == detected_level(
            no_color,
            clicolor@,
            colorterm@,
            term_lower@,
            term_program@,
            clicolor_force@,
        ),
{
    if no_color || same_text(clicolor, "0") {
        return ColorSupport::NoColor;
    }
    let term = term_lower;
    let mut level = ColorSupport::NoColor;
    if contains_text(colorterm, "truecolor") || contains_text(colorterm, "24bit") {
        level = ColorSupport::TrueColor;
    }
    if is_truecolor_term_text(term) {
        level = ColorSupport::TrueColor;
    }
    if same_text(term_program, "iTerm.app") || same_text(term_program, "Apple_Terminal")
        || same_text(term_program, "Hyper") {
        level = ColorSupport::TrueColor;
    }
    if matches!(level, ColorSupport::NoColor) {
        if contains_text(term, "256color") || contains_text(term, "256") {
            level = ColorSupport::Color256;
        } else if contains_text(term, "color") || contains_text(term, "ansi") || contains_text(
            term,
            "xterm",
        ) || contains_text(term, "screen") {
            level = ColorSupport::Basic;
        }
    }
    if matches!(level, ColorSupport::NoColor) && same_text(clicolor_force, "1") {
        level = ColorSupport::Basic;
    }
    level
}

/// Decides the terminal's color capability from the values of the environment
/// variables that signal it; `TERM` is lowercased first. `no_color` tells
/// whether `NO_COLOR` is set; each text is the variable's value, empty when it
/// is unset.
pub fn detect_color_support(
    no_color: bool,
    clicolor: &str,
    colorterm: &str,
    term: &str,
    term_program: &str,
    clicolor_force: &str,
) -> (level: ColorSupport)
    ensures
        level == detected_level(
            no_color,
            clicolor@,
            colorterm@,
            lower_of(term@),
            term_program@,
            clicolor_force@,
        ),
{
    let term_lower = lowercase(term);
    detect_from_lowercase_term(
        no_color,
        clicolor,
        colorterm,
        term_lower.as_str(),
        term_program,
        clicolor_force,
    )
}

/// `Ok` when the level supports any color, else `NoTerminalSupport`.
pub fn is_color_available(support: ColorSupport) -> (res: Result<(), ColorError>)
    ensures
        support != ColorSupport::NoColor ==> res == Ok::<(), ColorError>(()),
        support == ColorSupport::NoColor ==> res == Err::<(), ColorError>(
            ColorError::NoTerminalSupport,
        ),
{
    match support {
        ColorSupport::NoColor => Err(ColorError::NoTerminalSupport),
        _ => Ok(()),
    }
}

} // verus!
