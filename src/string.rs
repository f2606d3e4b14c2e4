//! Text paired with a style, and the trait that styles strings.
use vstd::prelude::*;
use vstd::utf8::encode_utf8;

use crate::ansi::{reset_escape, sgr_digit};
use crate::style::{composed, style_escape, Style};

verus! {

/// A string with an associated style.
#[derive(Debug, Clone)]
pub struct ColoredString {
    string: String,
    style: Style,
}

impl ColoredString {
    /// The text, without styling.
    pub closed spec fn text(&self) -> Seq<char> {
        self.string@
    }

    /// The style applied to the text.
    pub closed spec fn styling(&self) -> Style {
        self.style
    }

    /// Pairs `string` with `style`.
    pub fn new(string: &str, style: Style) -> (cs: Self)
        ensures
            cs.text() == string@,
            cs.styling() == style,
    {
        ColoredString { string: string.to_owned(), style }
    }

    /// The style applied to the text.
    pub fn current_style(&self) -> (st: Style)
        ensures
            st == self.styling(),
    {
        self.style
    }

    /// The text without styling.
    pub fn to_no_style(&self) -> (s: &str)
        ensures
            s@ == self.text(),
    {
        self.string.as_str()
    }

    /// Lays `additional` over the current style (see `Style::compose`).
    pub fn with_style(self, additional: Style) -> (cs: Self)
        ensures
            cs.text() == self.text(),
            cs.styling() == composed(self.styling(), additional),
    {
        ColoredString { string: self.string, style: self.style.compose(additional) }
    }

    /// Length of the text in bytes (UTF-8).
    pub fn len(&self) -> (n: usize)
        ensures
            n == encode_utf8(self.text()).len() as usize,
    {
        self.string.as_str().len()
    }

    /// Whether the text is empty.
    pub fn is_empty(&self) -> (r: bool)
        ensures
            r == (self.text().len() == 0),
    {
        self.string.as_str().is_empty()
    }

    /// The text with all styling removed.
    pub fn into_string(self) -> (s: String)
        ensures
            s@ == self.text(),
    {
        self.string
    }

    /// The printable text: the style's escape text, the text, then a reset.
    #[allow(clippy::inherent_to_string)]
    pub fn to_string(&self) -> (out: String)
        requires
            self.styling().wf(),
        ensures
            out@ == style_escape(self.styling()) + self.text() + reset_escape(),
    {
        let mut out = self.style.to_string();
        out.append(self.string.as_str());
        let reset = sgr_digit(0);
        out.append(reset.as_str());
        out
    }
}

/// Applies a style to text.
pub trait Styleable: Sized {
    /// The text that is styled.
    spec fn styled_text(&self) -> Seq<char>;

    /// Pairs the text with `style`.
    fn style(self, style: Style) -> (cs: ColoredString)
        ensures
            cs.text() == self.styled_text(),
            cs.styling() == style,
    ;
}

impl<'a> Styleable for &'a str {
    open spec fn styled_text(&self) -> Seq<char> {
        (*self)@
    }

    fn style(self, style: Style) -> (cs: ColoredString) {
        ColoredString::new(self, style)
    }
}

impl Styleable for String {
    open spec fn styled_text(&self) -> Seq<char> {
        self@
    }

    fn style(self, style: Style) -> (cs: ColoredString) {
        ColoredString::new(self.as_str(), style)
    }
}

} // verus!
