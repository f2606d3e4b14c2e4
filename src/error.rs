//! Errors raised by color construction and conversion.
use vstd::prelude::*;

use crate::support::ColorSupport;

verus! {

/// Errors that can occur when working with colors.
#[derive(Debug, PartialEq, Eq)]
pub enum ColorError {
    /// The terminal does not support ANSI colors.
    NoTerminalSupport,
    /// A hex color code is malformed; carries the offending text.
    InvalidHexCode(String),
    /// RGB values could not be parsed.
    InvalidRGB(String),
    /// The terminal does not support the requested color mode: (requested, available).
    UnsupportedColorMode(ColorSupport, ColorSupport),
    /// An invalid operation was attempted.
    InvalidOperation(String),
    /// A color manipulation failed.
    ColorManipulation(String),
    /// A numeric color value is out of range.
    InvalidColorValue(String),
    /// A conversion between color representations failed.
    ColorConversionError { from: &'static str, to: &'static str, reason: String },
    /// A color component lies outside its range.
    ComponentOutOfRange {
        component: &'static str,
        value: &'static str,
        min: &'static str,
        max: &'static str,
    },
    /// A color component failed validation.
    ValidationError { component: &'static str, value: String, reason: &'static str },
    /// The terminal cannot provide a requested capability.
    TerminalError { requested: &'static str, available: Option<&'static str>, reason: String },
    /// A conversion between color spaces failed.
    ColorSpaceConversion { from: &'static str, to: &'static str, reason: String },
    /// A color calculation failed.
    ColorCalculation(String),
    /// A color interpolation failed.
    InterpolationError(String),
}

/// The human-readable message of an error.
pub open spec fn error_message(e: ColorError) -> Seq<char> {
    match e {
        ColorError::NoTerminalSupport => "Terminal does not support ANSI colors"@,
        ColorError::InvalidHexCode(hex) => "Invalid hex color code: "@ + hex@,
        ColorError::InvalidRGB(msg) => "Invalid RGB values: "@ + msg@,
        ColorError::UnsupportedColorMode(requested, available) => "Terminal doesn't support "@
            + requested.name() + " (available: "@ + available.name() + ")"@,
        ColorError::InvalidOperation(msg) => "Invalid operation attempted: "@ + msg@,
        ColorError::ColorManipulation(msg) => "Color manipulation error: "@ + msg@,
        ColorError::InvalidColorValue(msg) => "Invalid color value: "@ + msg@,
        ColorError::ColorConversionError { from, to, reason } => "Color conversion error: "@
            + from@ + " to "@ + to@ + " failed: "@ + reason@,
        ColorError::ComponentOutOfRange { component, value, min, max } => "Component "@
            + component@ + " out of range: "@ + value@ + " is not between "@ + min@ + " and "@
            + max@,
        ColorError::ValidationError { component, value, reason } => "Validation error: "@
            + component@ + " is invalid: "@ + value@ + "\n Reason: "@ + reason@,
        ColorError::TerminalError { requested, available, reason } => "Terminal error: "@
            + requested@ + " is not supported: "@ + reason@ + "\n Available: "@ + match available {
            Some(a) => a@,
            None => "none"@,
        },
        ColorError::ColorSpaceConversion { from, to, reason } => "Color space conversion error: "@
            + from@ + " to "@ + to@ + " failed: "@ + reason@,
        ColorError::ColorCalculation(msg) => "Color calculation error: "@ + msg@,
        ColorError::InterpolationError(msg) => "Color interpolation error: "@ + msg@,
    }
}

fn prefixed(prefix: &str, detail: &str) -> (s: String)
    ensures
        s@ == prefix@ + detail@,
{
    let mut s = prefix.to_owned();
    s.append(detail);
    s
}

impl ColorError {
    /// The human-readable message of this error.
    #[allow(clippy::inherent_to_string)]
    pub fn to_string(&self) -> (s: String)
        ensures
            s@ == error_message(*self),
    {
        match self {
            ColorError::NoTerminalSupport => "Terminal does not support ANSI colors".to_owned(),
            ColorError::InvalidHexCode(hex) => prefixed("Invalid hex color code: ", hex.as_str()),
            ColorError::InvalidRGB(msg) => prefixed("Invalid RGB values: ", msg.as_str()),
            ColorError::UnsupportedColorMode(requested, available) => {
                let mut s = prefixed("Terminal doesn't support ", requested.to_string().as_str());
                s.append(" (available: ");
                s.append(available.to_string().as_str());
                s.append(")");
                s
            },
            ColorError::InvalidOperation(msg) => prefixed(
                "Invalid operation attempted: ",
                msg.as_str(),
            ),
            ColorError::ColorManipulation(msg) => prefixed("Color manipulation error: ", msg.as_str()),
            ColorError::InvalidColorValue(msg) => prefixed("Invalid color value: ", msg.as_str()),
            ColorError::ColorConversionError { from, to, reason } => {
                let mut s = prefixed("Color conversion error: ", from);
                s.append(" to ");
                s.append(to);
                s.append(" failed: ");
                s.append(reason.as_str());
                s
            },
            ColorError::ComponentOutOfRange { component, value, min, max } => {
                let mut s = prefixed("Component ", component);
                s.append(" out of range: ");
                s.append(value);
                s.append(" is not between ");
                s.append(min);
                s.append(" and ");
                s.append(max);
                s
            },
            ColorError::ValidationError { component, value, reason } => {
                let mut s = prefixed("Validation error: ", component);
                s.append(" is invalid: ");
                s.append(value.as_str());
                s.append("\n Reason: ");
                s.append(reason);
                s
            },
            ColorError::TerminalError { requested, available, reason } => {
                let mut s = prefixed("Terminal error: ", requested);
                s.append(" is not supported: ");
                s.append(reason.as_str());
                s.append("\n Available: ");
                match available {
                    Some(a) => s.append(a),
                    None => s.append("none"),
                }
                s
            },
            ColorError::ColorSpaceConversion { from, to, reason } => {
                let mut s = prefixed("Color space conversion error: ", from);
                s.append(" to ");
                s.append(to);
                s.append(" failed: ");
                s.append(reason.as_str());
                s
            },
            ColorError::ColorCalculation(msg) => prefixed("Color calculation error: ", msg.as_str()),
            ColorError::InterpolationError(msg) => prefixed(
                "Color interpolation error: ",
                msg.as_str(),
            ),
        }
    }
}

} // verus!
