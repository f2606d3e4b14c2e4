use inksac::{detect_color_support, Color, ColorError, ColorSupport};

fn truecolor_env() -> ColorSupport {
    detect_color_support(false, "", "truecolor", "xterm-256color", "", "")
}

#[test]
fn test_rgb_color() {
    let color = Color::new_rgb(255, 128, 0, truecolor_env());
    assert!(color.is_ok());
}

#[test]
fn test_hex_validation() {
    assert!(Color::validate_hex("#FF8000").is_ok());
    assert!(Color::validate_hex("FF8000").is_err());
    assert!(Color::validate_hex("#FF800").is_err());
    assert!(Color::validate_hex("#GGGGGG").is_err());
}

#[test]
fn test_hsv_color() {
    let support = truecolor_env();
    let color = Color::new_hsv(0, 100, 100, support);
    assert!(color.is_ok());

    let invalid_color = Color::new_hsv(361, 100, 100, support);
    assert!(invalid_color.is_err());
}

#[test]
fn test_hsl_color() {
    let support = truecolor_env();
    let color = Color::new_hsl(120, 100, 50, support);
    assert!(color.is_ok());

    let invalid_color = Color::new_hsl(0, 101, 50, support);
    assert!(invalid_color.is_err());
}

#[test]
fn test_new_rgb() {
    let color = Color::new_rgb(255, 128, 0, truecolor_env()).unwrap();
    if let Color::RGB(r, g, b) = color {
        assert_eq!(r, 255);
        assert_eq!(g, 128);
        assert_eq!(b, 0);
    }
}

#[test]
fn test_new_hex() {
    let color = Color::new_hex("#FF8000", truecolor_env()).unwrap();
    if let Color::HEX(hex) = color {
        assert_eq!(hex, "#FF8000");
    }
}

#[test]
fn test_hex_to_rgb() {
    let hex = "#ff0000";
    let (r, g, b) = Color::hex_to_rgb(hex).unwrap();
    assert_eq!(r, 255);
    assert_eq!(g, 0);
    assert_eq!(b, 0);
}

#[test]
fn validate_hex_yields_channels() {
    assert_eq!(Color::validate_hex("#FF8000"), Ok((255, 128, 0)));
    assert_eq!(Color::validate_hex("#0a1B2c"), Ok((10, 27, 44)));
    assert_eq!(Color::validate_hex("#000000"), Ok((0, 0, 0)));
    assert_eq!(Color::validate_hex("#ffffff"), Ok((255, 255, 255)));
}

#[test]
fn validate_hex_errors_carry_the_text() {
    for bad in ["FF8000", "#FF800", "#GGGGGG", "", "#", "#FF80000", "#+F+F+F", "#é12345"] {
        assert_eq!(
            Color::validate_hex(bad),
            Err(ColorError::InvalidHexCode(bad.to_string()))
        );
    }
    assert_eq!(Color::hex_to_rgb("#12345"), None);
}

#[test]
fn constructors_are_gated_on_true_color() {
    for level in [ColorSupport::NoColor, ColorSupport::Basic, ColorSupport::Color256] {
        let expected = Err(ColorError::UnsupportedColorMode(ColorSupport::TrueColor, level));
        assert_eq!(Color::new_rgb(1, 2, 3, level), expected);
        assert_eq!(Color::new_hex("#010203", level), expected);
        assert_eq!(Color::new_hsv(10, 20, 30, level), expected);
        assert_eq!(Color::new_hsl(10, 20, 30, level), expected);
    }
    let t = ColorSupport::TrueColor;
    assert_eq!(Color::new_rgb(1, 2, 3, t), Ok(Color::RGB(1, 2, 3)));
    assert_eq!(Color::new_hex("#010203", t), Ok(Color::HEX("#010203")));
    assert_eq!(Color::new_hsv(10, 20, 30, t), Ok(Color::HSV(10, 20, 30)));
    assert_eq!(Color::new_hsl(10, 20, 30, t), Ok(Color::HSL(10, 20, 30)));
}

#[test]
fn validation_comes_before_the_capability_check() {
    assert_eq!(
        Color::new_hex("#XYZ", ColorSupport::NoColor),
        Err(ColorError::InvalidHexCode("#XYZ".to_string()))
    );
    assert!(matches!(
        Color::new_hsv(0, 0, 101, ColorSupport::Basic),
        Err(ColorError::InvalidColorValue(_))
    ));
    assert!(matches!(
        Color::new_hsl(361, 0, 0, ColorSupport::NoColor),
        Err(ColorError::InvalidColorValue(_))
    ));
}
