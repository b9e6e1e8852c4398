use allui::{Color, Rgba, SemanticColor};

/// HSL lightness of a color, from 0.0 (black) to 1.0 (white).
fn lightness(c: Rgba) -> f32 {
    let max = c.r.max(c.g).max(c.b) as f32 / 255.0;
    let min = c.r.min(c.g).min(c.b) as f32 / 255.0;
    (max + min) / 2.0
}

#[test]
fn opacity_resolves_semantic_to_static() {
    let semantic = Color::label();
    assert!(semantic.is_semantic());

    let with_opacity = semantic.opacity(127);
    assert!(
        !with_opacity.is_semantic(),
        "applying opacity should resolve semantic color to static"
    );
}

#[test]
fn semantic_label_adapts_to_color_scheme() {
    let label = Color::label();

    let light = lightness(label.resolve(false));
    let dark = lightness(label.resolve(true));

    assert!(light < 0.1, "label should be dark in light mode");
    assert!(dark > 0.9, "label should be light in dark mode");
}

#[test]
fn semantic_background_adapts_to_color_scheme() {
    let bg = Color::system_background();

    let light = lightness(bg.resolve(false));
    let dark = lightness(bg.resolve(true));

    assert!(light > 0.9, "background should be light in light mode");
    assert!(dark < 0.1, "background should be dark in dark mode");
}

#[test]
fn opacity_keeps_light_channels_of_semantic_color() {
    let c = Color::secondary_label().opacity(200);
    assert_eq!(c.resolve(true), Rgba::new(61, 61, 66, 200));
    assert_eq!(c.resolve(false), Rgba::new(61, 61, 66, 200));
}

#[test]
fn opacity_on_static_color_replaces_alpha_only() {
    let c = Color::red().opacity(0);
    assert_eq!(c.to_rgba(), Rgba::new(255, 58, 48, 0));
    assert!(!c.is_semantic());
}

#[test]
fn static_color_ignores_mode() {
    let c = Color::blue();
    assert_eq!(c.resolve(false), c.resolve(true));
    assert_eq!(c.resolve(true), Rgba::new(0, 122, 255, 255));
}

#[test]
fn hex_reads_red_green_blue_bytes() {
    let c = Color::hex(0x1c2c3e);
    assert_eq!(c.to_rgba(), Rgba::new(0x1c, 0x2c, 0x3e, 255));
    let high = Color::hex(0xff00_0000 | 0x112233);
    assert_eq!(high.to_rgba(), Rgba::new(0x11, 0x22, 0x33, 255));
}

#[test]
fn packed_rgba_value() {
    assert_eq!(Rgba::new(0x12, 0x34, 0x56, 0x78).to_u32(), 0x12345678);
    assert_eq!(Rgba::from_hex(0xabcdef).to_u32(), 0xabcdefff);
}

#[test]
fn semantic_colors_store_light_value() {
    let c = Color::separator();
    assert_eq!(c.to_rgba(), Rgba::new(61, 61, 66, 73));
    assert_eq!(c.resolve(true), Rgba::new(84, 84, 89, 153));
    assert_eq!(Color::opaque_separator().resolve(true), Rgba::new(0x38, 0x38, 0x3a, 255));
}

#[test]
fn every_role_has_distinct_modes_or_same_value() {
    let roles = [
        SemanticColor::Label,
        SemanticColor::SecondaryLabel,
        SemanticColor::TertiaryLabel,
        SemanticColor::SystemBackground,
        SemanticColor::SecondarySystemBackground,
        SemanticColor::TertiarySystemBackground,
        SemanticColor::Separator,
        SemanticColor::OpaqueSeparator,
        SemanticColor::TextFieldBackground,
        SemanticColor::TextFieldBorder,
    ];
    for role in roles {
        assert_ne!(role.resolve(false), role.resolve(true));
    }
}

#[test]
fn dark_variants_match_dark_mode() {
    assert_eq!(Color::label_dark().to_rgba(), Color::label().resolve(true));
    assert_eq!(Color::label_light().to_rgba(), Color::label().resolve(false));
    assert_eq!(
        Color::secondary_system_background_dark().to_rgba(),
        Rgba::new(0x1c, 0x1c, 0x1e, 255)
    );
    assert!(!Color::separator_dark().is_semantic());
}

#[test]
fn named_colors() {
    assert_eq!(Color::clear().to_rgba(), Rgba::new(0, 0, 0, 0));
    assert_eq!(Color::gray().to_rgba(), Rgba::new(127, 127, 127, 255));
    assert_eq!(Color::primary(), Color::blue());
    assert_eq!(Color::secondary(), Color::gray());
    assert_eq!(Color::default(), Color::black());
}

#[test]
fn stored_value_is_light_value() {
    for c in [Color::label(), Color::separator(), Color::text_field_border(), Color::red()] {
        assert_eq!(c.to_rgba(), c.resolve(false));
    }
}
