use inksac::{Color, ColorSupport, Style, StyleBuilder};

#[test]
fn lib_test_style_builder() {
    let style = Style::builder()
        .foreground(Color::Red)
        .background(Color::Blue)
        .bold()
        .italic()
        .build();

    assert_eq!(style.foreground, Color::Red);
    assert_eq!(style.background, Color::Blue);
    assert!(style.bold);
    assert!(style.italic);
}

#[test]
fn style_test_style_builder() {
    let style = Style::builder()
        .foreground(Color::Red)
        .background(Color::Blue)
        .bold()
        .italic()
        .build();

    assert_eq!(style.foreground, Color::Red);
    assert_eq!(style.background, Color::Blue);
    assert!(style.bold);
    assert!(style.italic);
    assert!(!style.dim);
    assert!(!style.underline);
}

#[test]
fn test_style_display() {
    let style = Style::builder().foreground(Color::Red).bold().build();

    let output = style.to_string();
    assert!(output.contains("\x1b[31m")); // Red
    assert!(output.contains("\x1b[1m")); // Bold
}

#[test]
fn style_renders_every_part_in_order() {
    let style = Style::builder()
        .foreground(Color::Green)
        .background(Color::White)
        .bold()
        .dim()
        .italic()
        .underline()
        .build();
    assert_eq!(style.to_string(), "\x1b[32m\x1b[47m\x1b[1m\x1b[2m\x1b[3m\x1b[4m");
    assert_eq!(Style::clear().to_string(), "");
    let builder: StyleBuilder = StyleBuilder::default();
    assert_eq!(builder.build(), Style::clear());
}

#[test]
fn color_escapes() {
    assert_eq!(Color::Black.to_fg(), "\x1b[30m");
    assert_eq!(Color::White.to_bg(), "\x1b[47m");
    assert_eq!(Color::Empty.to_fg(), "");
    assert_eq!(Color::RGB(0, 9, 100).to_fg(), "\x1b[38;2;0;9;100m");
    assert_eq!(Color::RGB(255, 10, 7).to_bg(), "\x1b[48;2;255;10;7m");
    assert_eq!(Color::Color256(16).to_fg(), "\x1b[38;5;16m");
    assert_eq!(Color::Color256(255).to_bg(), "\x1b[48;5;255m");
    assert_eq!(Color::HEX("#FF8000").to_fg(), "\x1b[38;2;255;128;0m");
    assert_eq!(Color::HSV(120, 100, 100).to_bg(), "\x1b[48;2;0;255;0m");
    assert_eq!(Color::HSL(240, 100, 50).to_fg(), "\x1b[38;2;0;0;255m");
}

#[test]
fn rgb_foreground_end_to_end() {
    let color = Color::new_rgb(70, 130, 180, ColorSupport::TrueColor).unwrap();
    assert_eq!(color.to_fg(), "\x1b[38;2;70;130;180m");
}

#[test]
fn compose_overrides_colors_and_merges_attributes() {
    let base = Style::builder().foreground(Color::Blue).bold().build();
    let highlight = Style::builder().background(Color::Yellow).italic().build();
    let combined = base.compose(highlight);
    assert_eq!(combined.foreground, Color::Blue);
    assert_eq!(combined.background, Color::Yellow);
    assert!(combined.bold && combined.italic && !combined.dim && !combined.underline);

    let over = base.compose(Style::builder().foreground(Color::Red).build());
    assert_eq!(over.foreground, Color::Red);

    assert_eq!(base.compose(Style::clear()), base);
    assert_eq!(Style::clear().compose(base), base);
    assert!(Style::clear().is_empty());
    assert!(!base.is_empty());
}

#[test]
fn renderability() {
    assert!(Color::Color256(16).is_renderable());
    assert!(!Color::Color256(15).is_renderable());
    assert!(Color::HEX("#a0B1c2").is_renderable());
    assert!(!Color::HEX("#a0B1c").is_renderable());
    assert!(!Color::HSV(361, 0, 0).is_renderable());
    assert!(!Color::HSL(0, 0, 101).is_renderable());
    assert!(Color::RGB(1, 2, 3).is_renderable());
    let bad = Style::builder().background(Color::Color256(3)).build();
    assert!(!bad.is_renderable());
    assert!(Style::builder().foreground(Color::Red).build().is_renderable());
}
