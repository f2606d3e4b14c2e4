use inksac::{detect_color_support, Color, ColorError, ColorSupport};

fn truecolor_env() -> ColorSupport {
    detect_color_support(false, "", "truecolor", "xterm-256color", "", "")
}

#[test]
fn test_lighten() {
    let support = truecolor_env();
    let color = Color::new_rgb(100, 100, 100, support).unwrap();
    let lightened = color.lighten(50, support).unwrap();
    if let Color::RGB(r, g, b) = lightened {
        assert!(r > 100);
        assert!(g > 100);
        assert!(b > 100);
    }
}

#[test]
fn test_darken() {
    let support = truecolor_env();
    let color = Color::new_rgb(100, 100, 100, support).unwrap();
    let darkened = color.darken(50, support).unwrap();
    if let Color::RGB(r, g, b) = darkened {
        assert!(r < 100);
        assert!(g < 100);
        assert!(b < 100);
    }
}

#[test]
fn lighten_and_darken_exact_channels() {
    let t = ColorSupport::TrueColor;
    assert_eq!(Color::RGB(100, 100, 100).lighten(50, t), Ok(Color::RGB(177, 177, 177)));
    assert_eq!(Color::RGB(100, 100, 100).darken(50, t), Ok(Color::RGB(50, 50, 50)));
    assert_eq!(Color::RGB(10, 200, 255).lighten(30, t), Ok(Color::RGB(83, 216, 255)));
    assert_eq!(Color::RGB(10, 200, 255).darken(30, t), Ok(Color::RGB(7, 140, 178)));
}

#[test]
fn lighten_and_darken_extremes() {
    let t = ColorSupport::TrueColor;
    for c in [Color::RGB(0, 0, 0), Color::RGB(12, 128, 255), Color::RGB(255, 255, 255)] {
        assert_eq!(c.lighten(0, t), Ok(c));
        assert_eq!(c.darken(0, t), Ok(c));
        assert_eq!(c.lighten(100, t), Ok(Color::RGB(255, 255, 255)));
        assert_eq!(c.darken(100, t), Ok(Color::RGB(0, 0, 0)));
        // percentages above 100 are clamped
        assert_eq!(c.lighten(250, t), Ok(Color::RGB(255, 255, 255)));
        assert_eq!(c.darken(101, t), Ok(Color::RGB(0, 0, 0)));
    }
}

#[test]
fn lighten_resolves_hex_to_rgb() {
    let t = ColorSupport::TrueColor;
    assert_eq!(Color::HEX("#FF8000").darken(50, t), Ok(Color::RGB(127, 64, 0)));
    assert_eq!(Color::HEX("#000000").lighten(100, t), Ok(Color::RGB(255, 255, 255)));
    assert_eq!(
        Color::HEX("#00000").lighten(10, t),
        Err(ColorError::InvalidHexCode("#00000".to_string()))
    );
}

#[test]
fn lighten_leaves_other_colors_alone() {
    for c in [
        Color::Red,
        Color::Empty,
        Color::Color256(100),
        Color::HSV(10, 20, 30),
        Color::HSL(10, 20, 30),
    ] {
        assert_eq!(c.lighten(40, ColorSupport::NoColor), Ok(c));
        assert_eq!(c.darken(40, ColorSupport::NoColor), Ok(c));
    }
}

#[test]
fn lighten_is_gated() {
    assert_eq!(
        Color::RGB(1, 2, 3).lighten(10, ColorSupport::Color256),
        Err(ColorError::UnsupportedColorMode(ColorSupport::TrueColor, ColorSupport::Color256))
    );
}
