//! Styled terminal text: colors and their color-space conversions, the
//! capability-gated construction of colors, text styles and the ANSI escape
//! sequences that render them.
//!
//! The terminal's capability is passed in as a [`ColorSupport`] value; it can
//! be decided from the environment's signals with [`detect_color_support`].

pub mod ansi;
pub mod color;
pub mod convert;
pub mod error;
pub mod manipulation;
pub mod string;
pub mod style;
pub mod support;
pub mod text;

pub use color::Color;
pub use error::ColorError;
pub use string::{ColoredString, Styleable};
pub use style::{Style, StyleBuilder};
pub use support::{
    detect_color_support, detect_from_lowercase_term, is_color_available, ColorSupport,
};
