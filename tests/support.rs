use inksac::{
    detect_color_support, detect_from_lowercase_term, is_color_available, Color, ColorError,
    ColorSupport,
};

#[test]
fn test_all_color_scenarios() {
    // Color support
    let support = detect_color_support(false, "", "truecolor", "xterm-256color", "", "");
    assert_eq!(support, ColorSupport::TrueColor);

    // No color environment
    let support = detect_color_support(true, "", "", "", "", "");
    assert_eq!(support, ColorSupport::NoColor);

    // CLICOLOR_FORCE
    let support = detect_color_support(false, "", "", "", "", "1");
    assert_eq!(support, ColorSupport::Basic);

    // CLICOLOR disable
    let support = detect_color_support(false, "0", "", "", "", "");
    assert_eq!(support, ColorSupport::NoColor);

    // RGB color
    let support = detect_color_support(false, "", "truecolor", "xterm-256color", "", "");
    let rgb = Color::new_rgb(255, 128, 0, support);
    assert!(rgb.is_ok());

    // HEX color
    let hex = Color::new_hex("#FF8000", support);
    assert!(hex.is_ok());
}

#[test]
fn detection_levels() {
    assert_eq!(detect_color_support(false, "", "", "xterm-256color", "", ""), ColorSupport::Color256);
    assert_eq!(detect_color_support(false, "", "", "xterm", "", ""), ColorSupport::Basic);
    assert_eq!(detect_color_support(false, "", "", "screen", "", ""), ColorSupport::Basic);
    assert_eq!(detect_color_support(false, "", "", "dumb", "", ""), ColorSupport::NoColor);
    assert_eq!(detect_color_support(false, "", "24bit", "dumb", "", ""), ColorSupport::TrueColor);
    assert_eq!(detect_color_support(false, "", "", "alacritty", "", ""), ColorSupport::TrueColor);
    assert_eq!(detect_color_support(false, "", "", "", "iTerm.app", ""), ColorSupport::TrueColor);
    assert_eq!(detect_color_support(false, "", "", "", "iterm.app", ""), ColorSupport::NoColor);
    // NO_COLOR and CLICOLOR=0 override everything
    assert_eq!(detect_color_support(true, "", "truecolor", "kitty", "", "1"), ColorSupport::NoColor);
    assert_eq!(detect_color_support(false, "0", "truecolor", "", "", "1"), ColorSupport::NoColor);
    // CLICOLOR_FORCE never lowers a detected level
    assert_eq!(detect_color_support(false, "", "", "xterm-256color", "", "1"), ColorSupport::Color256);
}

#[test]
fn detection_lowercases_term() {
    assert_eq!(detect_color_support(false, "", "", "KITTY", "", ""), ColorSupport::TrueColor);
    assert_eq!(detect_color_support(false, "", "", "XTERM", "", ""), ColorSupport::Basic);
}

#[test]
fn supports_follows_the_order() {
    let levels = [
        ColorSupport::NoColor,
        ColorSupport::Basic,
        ColorSupport::Color256,
        ColorSupport::TrueColor,
    ];
    for (i, a) in levels.iter().enumerate() {
        for (j, b) in levels.iter().enumerate() {
            assert_eq!(a.supports(*b), i >= j);
        }
    }
}

#[test]
fn color_availability() {
    assert_eq!(is_color_available(ColorSupport::NoColor), Err(ColorError::NoTerminalSupport));
    assert_eq!(is_color_available(ColorSupport::Basic), Ok(()));
    assert_eq!(is_color_available(ColorSupport::TrueColor), Ok(()));
}

#[test]
fn error_and_level_messages() {
    assert_eq!(ColorSupport::NoColor.to_string(), "No Color");
    assert_eq!(ColorSupport::Color256.to_string(), "Color256");
    assert_eq!(
        ColorError::UnsupportedColorMode(ColorSupport::TrueColor, ColorSupport::Basic).to_string(),
        "Terminal doesn't support TrueColor (available: Basic)"
    );
    assert_eq!(
        ColorError::InvalidHexCode("#zz".to_string()).to_string(),
        "Invalid hex color code: #zz"
    );
    assert_eq!(
        ColorError::NoTerminalSupport.to_string(),
        "Terminal does not support ANSI colors"
    );
    assert_eq!(
        ColorError::InvalidColorValue("HSV values out of range".to_string()).to_string(),
        "Invalid color value: HSV values out of range"
    );
}

#[test]
fn detection_on_lowercased_term() {
    let d = |term: &str| detect_from_lowercase_term(false, "", "", term, "", "");
    assert_eq!(d("xterm-256color"), ColorSupport::Color256);
    assert_eq!(d("xterm"), ColorSupport::Basic);
    assert_eq!(d("konsole"), ColorSupport::TrueColor);
    assert_eq!(d("XTERM"), ColorSupport::NoColor);
    assert_eq!(d("vt100"), ColorSupport::NoColor);
    assert_eq!(detect_from_lowercase_term(false, "", "", "vt100", "", "1"), ColorSupport::Basic);
    assert_eq!(detect_from_lowercase_term(true, "", "24bit", "kitty", "", ""), ColorSupport::NoColor);
    assert_eq!(detect_from_lowercase_term(false, "0", "", "xterm", "", ""), ColorSupport::NoColor);
    assert_eq!(detect_from_lowercase_term(false, "", "", "", "Hyper", ""), ColorSupport::TrueColor);
}

#[test]
fn structured_error_messages() {
    assert_eq!(
        ColorError::ColorConversionError { from: "HSV", to: "RGB", reason: "overflow".to_string() }
            .to_string(),
        "Color conversion error: HSV to RGB failed: overflow"
    );
    assert_eq!(
        ColorError::ComponentOutOfRange { component: "hue", value: "400", min: "0", max: "360" }
            .to_string(),
        "Component hue out of range: 400 is not between 0 and 360"
    );
    assert_eq!(
        ColorError::ValidationError { component: "red", value: "x".to_string(), reason: "nan" }
            .to_string(),
        "Validation error: red is invalid: x\n Reason: nan"
    );
    assert_eq!(
        ColorError::TerminalError { requested: "rgb", available: None, reason: "dumb".to_string() }
            .to_string(),
        "Terminal error: rgb is not supported: dumb\n Available: none"
    );
    assert_eq!(
        ColorError::TerminalError {
            requested: "rgb",
            available: Some("basic"),
            reason: "old".to_string()
        }
        .to_string(),
        "Terminal error: rgb is not supported: old\n Available: basic"
    );
    assert_eq!(
        ColorError::ColorSpaceConversion { from: "HSL", to: "RGB", reason: "bad".to_string() }
            .to_string(),
        "Color space conversion error: HSL to RGB failed: bad"
    );
    assert_eq!(ColorError::ColorCalculation("c".to_string()).to_string(), "Color calculation error: c");
    assert_eq!(ColorError::InterpolationError("i".to_string()).to_string(), "Color interpolation error: i");
}
