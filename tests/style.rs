use allui::{ButtonChrome, ButtonStyle, FontDesign, FontWeight, Platform, ProgressViewStyle, TruncationMode};

#[test]
fn font_families() {
    assert_eq!(FontDesign::Default.font_family(), None);
    assert_eq!(FontDesign::Monospaced.font_family(), Some("monospace"));
    assert_eq!(FontDesign::Serif.font_family(), Some("serif"));
    assert_eq!(FontDesign::Rounded.font_family(), Some("sans-serif"));
    assert_eq!(FontDesign::Monospaced.font_family_on(Platform::MacOs), Some("SF Mono"));
    assert_eq!(FontDesign::Serif.font_family_on(Platform::Windows), Some("Georgia"));
    assert_eq!(FontDesign::Rounded.font_family_on(Platform::Linux), Some("sans-serif"));
    assert_eq!(FontDesign::monospace_family(Platform::Windows), "Cascadia Mono");
    assert_eq!(FontDesign::serif_family(Platform::MacOs), "New York");
    assert_eq!(FontDesign::rounded_family(Platform::MacOs), "SF Pro Rounded");
}

#[test]
fn style_defaults() {
    assert_eq!(FontWeight::default(), FontWeight::Regular);
    assert_eq!(FontDesign::default(), FontDesign::Default);
    assert_eq!(ButtonStyle::default(), ButtonStyle::Automatic);
    assert_eq!(ProgressViewStyle::default(), ProgressViewStyle::Circular);
    assert_eq!(TruncationMode::default(), TruncationMode::Tail);
}

#[test]
fn button_chrome() {
    assert_eq!(ButtonStyle::Automatic.chrome(), ButtonChrome::Outline);
    assert_eq!(ButtonStyle::Bordered.chrome(), ButtonChrome::Outline);
    assert_eq!(ButtonStyle::BorderedProminent.chrome(), ButtonChrome::Filled);
    assert_eq!(ButtonStyle::Plain.chrome(), ButtonChrome::Bare);
    assert_eq!(ButtonStyle::Borderless.chrome(), ButtonChrome::Bare);
}
