//! Text styles: a foreground and background color with text attributes,
//! their composition, builder and escape-sequence rendering.
use vstd::prelude::*;

use crate::ansi::{color_escape, digit_char, sgr, sgr_digit};
use crate::color::Color;

verus! {

/// A complete text style: colors and formatting attributes.
#[derive(Debug, Clone, Copy, PartialEq, Eq, Default)]
pub struct Style {
    pub foreground: Color,
    pub background: Color,
    pub bold: bool,
    pub dim: bool,
    pub italic: bool,
    pub underline: bool,
}

/// The style with no color and no attribute set.
pub open spec fn plain_style() -> Style {
    Style {
        foreground: Color::Empty,
        background: Color::Empty,
        bold: false,
        dim: false,
        italic: false,
        underline: false,
    }
}

/// `b` laid over `a`: each color of `b` wins unless it is `Empty`, and an
/// attribute is set when it is set in either.
pub open spec fn composed(a: Style, b: Style) -> Style {
    Style {
        foreground: if b.foreground is Empty {
            a.foreground
        } else {
            b.foreground
        },
        background: if b.background is Empty {
            a.background
        } else {
            b.background
        },
        bold: a.bold || b.bold,
        dim: a.dim || b.dim,
        italic: a.italic || b.italic,
        underline: a.underline || b.underline,
    }
}

/// `ESC [ code m` when `on`, else nothing.
pub open spec fn attribute_escape(on: bool, code: int) -> Seq<char> {
    if on {
        sgr(seq![digit_char(code)])
    } else {
        Seq::empty()
    }
}

/// The escape text of a style: foreground, background, then bold (1),
/// dim (2), italic (3) and underline (4).
pub open spec fn style_escape(st: Style) -> Seq<char> {
    color_escape(st.foreground, false) + color_escape(st.background, true) + attribute_escape(
        st.bold,
        1,
    ) + attribute_escape(st.dim, 2) + attribute_escape(st.italic, 3) + attribute_escape(
        st.underline,
        4,
    )
}

fn push_attribute(out: &mut String, on: bool, code: u8)
    requires
        code < 10,
    ensures
        final(out)@ == old(out)@ + attribute_escape(on, code as int),
{
    if on {
        let a = sgr_digit(code);
        out.append(a.as_str());
    } else {
        proof {
            assert(old(out)@ + attribute_escape(on, code as int) =~= old(out)@);
        }
    }
}

impl Style {
    /// Both colors can be rendered.
    pub open spec fn wf(self) -> bool {
        self.foreground.wf() && self.background.wf()
    }

    /// Whether both colors can be rendered.
    pub fn is_renderable(&self) -> (r: bool)
        ensures
            r == self.wf(),
    {
        self.foreground.is_renderable() && self.background.is_renderable()
    }

    /// A builder that starts from the plain style.
    pub fn builder() -> (b: StyleBuilder)
        ensures
            b@ == plain_style(),
    {
        StyleBuilder { style: Self::clear() }
    }

    /// Combines two styles, `other` overriding `self` where it sets a color.
    pub fn compose(self, other: Style) -> (st: Style)
        ensures
            st == composed(self, other),
    {
        Style {
            foreground: if matches!(other.foreground, Color::Empty) {
                self.foreground
            } else {
                other.foreground
            },
            background: if matches!(other.background, Color::Empty) {
                self.background
            } else {
                other.background
            },
            bold: self.bold || other.bold,
            dim: self.dim || other.dim,
            italic: self.italic || other.italic,
            underline: self.underline || other.underline,
        }
    }

    /// The style with all attributes cleared.
    pub fn clear() -> (st: Style)
        ensures
            st == plain_style(),
    {
        Style {
            foreground: Color::Empty,
            background: Color::Empty,
            bold: false,
            dim: false,
            italic: false,
            underline: false,
        }
    }

    /// Whether no color and no attribute is set.
    pub fn is_empty(&self) -> (r: bool)
        ensures
            r == (*self == plain_style()),
    {
        matches!(self.foreground, Color::Empty) && matches!(self.background, Color::Empty)
            && !self.bold && !self.dim && !self.italic && !self.underline
    }

    /// The escape text that turns this style on.
    #[allow(clippy::inherent_to_string)]
    pub fn to_string(&self) -> (out: String)
        requires
            self.wf(),
        ensures
            out@ == style_escape(*self),
    {
        let mut out = self.foreground.to_fg();
        let bg = self.background.to_bg();
        out.append(bg.as_str());
        push_attribute(&mut out, self.bold, 1);
        push_attribute(&mut out, self.dim, 2);
        push_attribute(&mut out, self.italic, 3);
        push_attribute(&mut out, self.underline, 4);
        proof {
            assert(out@ =~= style_escape(*self));
        }
        out
    }
}

/// The plain style is the identity of composition, on either side.
pub proof fn plain_style_is_identity(st: Style)
    ensures
        composed(st, plain_style()) == st,
        composed(plain_style(), st) == st,
{
}

/// Builds a `Style` step by step.
#[derive(Debug, Clone, Copy, Default)]
pub struct StyleBuilder {
    style: Style,
}

impl View for StyleBuilder {
    type V = Style;

    closed spec fn view(&self) -> Style {
        self.style
    }
}

impl StyleBuilder {
    /// Sets the foreground (text) color.
    pub fn foreground(self, color: Color) -> (b: Self)
        ensures
            b@ == (Style { foreground: color, ..self@ }),
    {
        StyleBuilder { style: Style { foreground: color, ..self.style } }
    }

    /// Sets the background color.
    pub fn background(self, color: Color) -> (b: Self)
        ensures
            b@ == (Style { background: color, ..self@ }),
    {
        StyleBuilder { style: Style { background: color, ..self.style } }
    }

    /// Enables bold text.
    pub fn bold(self) -> (b: Self)
        ensures
            b@ == (Style { bold: true, ..self@ }),
    {
        StyleBuilder { style: Style { bold: true, ..self.style } }
    }

    /// Enables dim text.
    pub fn dim(self) -> (b: Self)
        ensures
            b@ == (Style { dim: true, ..self@ }),
    {
        StyleBuilder { style: Style { dim: true, ..self.style } }
    }

    /// Enables italic text.
    pub fn italic(self) -> (b: Self)
        ensures
            b@ == (Style { italic: true, ..self@ }),
    {
        StyleBuilder { style: Style { italic: true, ..self.style } }
    }

    /// Enables underlined text.
    pub fn underline(self) -> (b: Self)
        ensures
            b@ == (Style { underline: true, ..self@ }),
    {
        StyleBuilder { style: Style { underline: true, ..self.style } }
    }

    /// The style built so far.
    pub fn build(self) -> (st: Style)
        ensures
            st == self@,
    {
        self.style
    }
}

} // verus!
