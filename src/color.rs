//! Colors: static RGBA values and semantic colors that adapt to light and dark mode.
//!
//! A static color is four 8-bit channels. A semantic color names a role (label,
//! background, separator) and resolves to one RGBA value in light mode and
//! another in dark mode.
use vstd::prelude::*;

verus! {

/// A color as four 8-bit channels: red, green, blue and alpha (255 is opaque).
#[derive(Clone, Copy, Debug, PartialEq, Eq, Structural)]
pub struct Rgba {
    pub r: u8,
    pub g: u8,
    pub b: u8,
    pub a: u8,
}

/// The channels as one number `0xRRGGBBAA`.
pub open spec fn packed_rgba(c: Rgba) -> nat {
    c.r as nat * 0x1000000 + c.g as nat * 0x10000 + c.b as nat * 0x100 + c.a as nat
}

/// The color that `0xRRGGBB` names, fully opaque; bits above the low 24 are ignored.
pub open spec fn rgb_of_hex(hex: u32) -> Rgba {
    Rgba {
        r: ((hex as nat / 0x10000) % 0x100) as u8,
        g: ((hex as nat / 0x100) % 0x100) as u8,
        b: (hex as nat % 0x100) as u8,
        a: 255,
    }
}

impl Rgba {
    pub fn new(r: u8, g: u8, b: u8, a: u8) -> (c: Rgba)
        ensures
            c.r == r,
            c.g == g,
            c.b == b,
            c.a == a,
    {
        Rgba { r, g, b, a }
    }

    /// The channels packed as `0xRRGGBBAA`.
    pub fn to_u32(self) -> (v: u32)
        ensures
            v as nat == packed_rgba(self),
    {
        (self.r as u32) * 0x1000000 + (self.g as u32) * 0x10000 + (self.b as u32) * 0x100
            + (self.a as u32)
    }

    /// The opaque color that `0xRRGGBB` names.
    pub fn from_hex(hex: u32) -> (c: Rgba)
        ensures
            c == rgb_of_hex(hex),
    {
        Rgba {
            r: ((hex / 0x10000) % 0x100) as u8,
            g: ((hex / 0x100) % 0x100) as u8,
            b: (hex % 0x100) as u8,
            a: 255,
        }
    }
}

/// Semantic color roles that resolve differently in light and dark mode.
#[derive(Clone, Copy, Debug, PartialEq, Eq, Structural)]
pub enum SemanticColor {
    /// Primary label color for text
    Label,
    /// Secondary label color for subtitles
    SecondaryLabel,
    /// Tertiary label color for placeholder text
    TertiaryLabel,
    /// Primary system background
    SystemBackground,
    /// Secondary system background (grouped tables)
    SecondarySystemBackground,
    /// Tertiary system background
    TertiarySystemBackground,
    /// Separator for dividers
    Separator,
    /// Opaque separator
    OpaqueSeparator,
    /// Text field background
    TextFieldBackground,
    /// Text field border
    TextFieldBorder,
}

pub open spec fn rgba(r: u8, g: u8, b: u8, a: u8) -> Rgba {
    Rgba { r, g, b, a }
}

impl SemanticColor {
    /// The value of each role in light mode.
    pub open spec fn light_value(self) -> Rgba {
        match self {
            SemanticColor::Label => rgba(0, 0, 0, 255),
            SemanticColor::SecondaryLabel => rgba(61, 61, 66, 153),
            SemanticColor::TertiaryLabel => rgba(61, 61, 66, 76),
            SemanticColor::SystemBackground => rgba(255, 255, 255, 255),
            SemanticColor::SecondarySystemBackground => rgba(242, 242, 247, 255),
            SemanticColor::TertiarySystemBackground => rgba(255, 255, 255, 255),
            SemanticColor::Separator => rgba(61, 61, 66, 73),
            SemanticColor::OpaqueSeparator => rgba(198, 198, 204, 255),
            SemanticColor::TextFieldBackground => rgba(255, 255, 255, 255),
            SemanticColor::TextFieldBorder => rgba(216, 216, 216, 255),
        }
    }

    /// The value of each role in dark mode.
    pub open spec fn dark_value(self) -> Rgba {
        match self {
            SemanticColor::Label => rgba(255, 255, 255, 255),
            SemanticColor::SecondaryLabel => rgba(234, 234, 244, 153),
            SemanticColor::TertiaryLabel => rgba(234, 234, 244, 76),
            SemanticColor::SystemBackground => rgba(0, 0, 0, 255),
            SemanticColor::SecondarySystemBackground => rgb_of_hex(0x1c1c1e),
            SemanticColor::TertiarySystemBackground => rgb_of_hex(0x2c2c2e),
            SemanticColor::Separator => rgba(84, 84, 89, 153),
            SemanticColor::OpaqueSeparator => rgb_of_hex(0x38383a),
            SemanticColor::TextFieldBackground => rgba(30, 30, 30, 255),
            SemanticColor::TextFieldBorder => rgba(62, 62, 62, 255),
        }
    }

    pub open spec fn spec_resolve(self, dark_mode: bool) -> Rgba {
        if dark_mode {
            self.dark_value()
        } else {
            self.light_value()
        }
    }

    /// The concrete color of this role in the given mode.
    pub fn resolve(self, dark_mode: bool) -> (c: Rgba)
        ensures
            c == self.spec_resolve(dark_mode),
    {
        if dark_mode {
            match self {
                SemanticColor::Label => Rgba::new(255, 255, 255, 255),
                SemanticColor::SecondaryLabel => Rgba::new(234, 234, 244, 153),
                SemanticColor::TertiaryLabel => Rgba::new(234, 234, 244, 76),
                SemanticColor::SystemBackground => Rgba::new(0, 0, 0, 255),
                SemanticColor::SecondarySystemBackground => Rgba::from_hex(0x1c1c1e),
                SemanticColor::TertiarySystemBackground => Rgba::from_hex(0x2c2c2e),
                SemanticColor::Separator => Rgba::new(84, 84, 89, 153),
                SemanticColor::OpaqueSeparator => Rgba::from_hex(0x38383a),
                SemanticColor::TextFieldBackground => Rgba::new(30, 30, 30, 255),
                SemanticColor::TextFieldBorder => Rgba::new(62, 62, 62, 255),
            }
        } else {
            match self {
                SemanticColor::Label => Rgba::new(0, 0, 0, 255),
                SemanticColor::SecondaryLabel => Rgba::new(61, 61, 66, 153),
                SemanticColor::TertiaryLabel => Rgba::new(61, 61, 66, 76),
                SemanticColor::SystemBackground => Rgba::new(255, 255, 255, 255),
                SemanticColor::SecondarySystemBackground => Rgba::new(242, 242, 247, 255),
                SemanticColor::TertiarySystemBackground => Rgba::new(255, 255, 255, 255),
                SemanticColor::Separator => Rgba::new(61, 61, 66, 73),
                SemanticColor::OpaqueSeparator => Rgba::new(198, 198, 204, 255),
                SemanticColor::TextFieldBackground => Rgba::new(255, 255, 255, 255),
                SemanticColor::TextFieldBorder => Rgba::new(216, 216, 216, 255),
            }
        }
    }
}

/// A color for backgrounds, text, borders and tints.
///
/// `rgba` is the value used when the color is taken as static: for a semantic
/// color it is the light-mode value of its role. `semantic` is the role, if any.
#[derive(Clone, Copy, Debug, PartialEq, Eq, Structural)]
pub struct Color {
    pub rgba: Rgba,
    pub semantic: Option<SemanticColor>,
}

/// A color is well formed when a semantic color stores the light value of its role.
pub open spec fn color_wf(c: Color) -> bool {
    c.semantic matches Some(s) ==> c.rgba == s.light_value()
}

/// The concrete value of a color in the given mode.
pub open spec fn resolved(c: Color, dark_mode: bool) -> Rgba {
    match c.semantic {
        Some(s) => s.spec_resolve(dark_mode),
        None => c.rgba,
    }
}

pub open spec fn static_color(c: Rgba) -> Color {
    Color { rgba: c, semantic: None }
}

pub open spec fn semantic_color(s: SemanticColor) -> Color {
    Color { rgba: s.light_value(), semantic: Some(s) }
}

/// The stored value of a well-formed color is its light-mode value, so taking
/// a color as static agrees with resolving it in light mode.
pub proof fn lemma_stored_value_is_light_value(c: Color)
    requires
        color_wf(c),
    ensures
        resolved(c, false) == c.rgba,
{
}

impl Color {
    /// A static color with the given channels.
    pub fn from_rgba(c: Rgba) -> (r: Color)
        ensures
            r == static_color(c),
    {
        Color { rgba: c, semantic: None }
    }

    fn static_rgba(r: u8, g: u8, b: u8, a: u8) -> (c: Color)
        ensures
            c == static_color(rgba(r, g, b, a)),
    {
        Color { rgba: Rgba::new(r, g, b, a), semantic: None }
    }

    fn adaptive(s: SemanticColor) -> (c: Color)
        ensures
            c == semantic_color(s),
    {
        Color { rgba: s.resolve(false), semantic: Some(s) }
    }

    /// The opaque static color that `0xRRGGBB` names (`0xFF0000` is red).
    pub fn hex(hex: u32) -> (c: Color)
        ensures
            c == static_color(rgb_of_hex(hex)),
    {
        Color { rgba: Rgba::from_hex(hex), semantic: None }
    }

    /// This color with its alpha channel replaced.
    ///
    /// A semantic color is first taken at its light-mode value, so the result
    /// is always static.
    pub fn opacity(self, alpha: u8) -> (c: Color)
        ensures
            c.semantic is None,
            c.rgba == (Rgba { a: alpha, ..resolved(self, false) }),
    {
        let base = match self.semantic {
            Some(s) => s.resolve(false),
            None => self.rgba,
        };
        Color { rgba: Rgba { a: alpha, ..base }, semantic: None }
    }

    /// The concrete value of this color: the stored value of a static color,
    /// the value of its role in the given mode for a semantic one.
    pub fn resolve(self, dark_mode: bool) -> (c: Rgba)
        ensures
            c == resolved(self, dark_mode),
    {
        match self.semantic {
            Some(s) => s.resolve(dark_mode),
            None => self.rgba,
        }
    }

    /// Whether this color adapts to light and dark mode.
    pub fn is_semantic(&self) -> (b: bool)
        ensures
            b == self.semantic is Some,
    {
        self.semantic.is_some()
    }

    /// The stored value; for a semantic color, its light-mode value.
    pub fn to_rgba(self) -> (c: Rgba)
        ensures
            c == self.rgba,
    {
        self.rgba
    }

    pub fn clear() -> (c: Color)
        ensures
            c == static_color(rgba(0, 0, 0, 0)),
    {
        Color::static_rgba(0, 0, 0, 0)
    }

    pub fn black() -> (c: Color)
        ensures
            c == static_color(rgba(0, 0, 0, 255)),
    {
        Color::static_rgba(0, 0, 0, 255)
    }

    pub fn white() -> (c: Color)
        ensures
            c == static_color(rgba(255, 255, 255, 255)),
    {
        Color::static_rgba(255, 255, 255, 255)
    }

    pub fn gray() -> (c: Color)
        ensures
            c == static_color(rgba(127, 127, 127, 255)),
    {
        Color::static_rgba(127, 127, 127, 255)
    }

    pub fn red() -> (c: Color)
        ensures
            c == static_color(rgba(255, 58, 48, 255)),
    {
        Color::static_rgba(255, 58, 48, 255)
    }

    pub fn orange() -> (c: Color)
        ensures
            c == static_color(rgba(255, 147, 0, 255)),
    {
        Color::static_rgba(255, 147, 0, 255)
    }

    pub fn yellow() -> (c: Color)
        ensures
            c == static_color(rgba(255, 204, 0, 255)),
    {
        Color::static_rgba(255, 204, 0, 255)
    }

    pub fn green() -> (c: Color)
        ensures
            c == static_color(rgba(51, 198, 89, 255)),
    {
        Color::static_rgba(51, 198, 89, 255)
    }

    pub fn mint() -> (c: Color)
        ensures
            c == static_color(rgba(0, 198, 191, 255)),
    {
        Color::static_rgba(0, 198, 191, 255)
    }

    pub fn teal() -> (c: Color)
        ensures
            c == static_color(rgba(48, 175, 198, 255)),
    {
        Color::static_rgba(48, 175, 198, 255)
    }

    pub fn cyan() -> (c: Color)
        ensures
            c == static_color(rgba(99, 209, 255, 255)),
    {
        Color::static_rgba(99, 209, 255, 255)
    }

    pub fn blue() -> (c: Color)
        ensures
            c == static_color(rgba(0, 122, 255, 255)),
    {
        Color::static_rgba(0, 122, 255, 255)
    }

    pub fn indigo() -> (c: Color)
        ensures
            c == static_color(rgba(89, 86, 214, 255)),
    {
        Color::static_rgba(89, 86, 214, 255)
    }

    pub fn purple() -> (c: Color)
        ensures
            c == static_color(rgba(175, 81, 221, 255)),
    {
        Color::static_rgba(175, 81, 221, 255)
    }

    pub fn pink() -> (c: Color)
        ensures
            c == static_color(rgba(255, 45, 84, 255)),
    {
        Color::static_rgba(255, 45, 84, 255)
    }

    pub fn brown() -> (c: Color)
        ensures
            c == static_color(rgba(163, 132, 94, 255)),
    {
        Color::static_rgba(163, 132, 94, 255)
    }

    /// Primary accent color: blue.
    pub fn primary() -> (c: Color)
        ensures
            c == static_color(rgba(0, 122, 255, 255)),
    {
        Color::blue()
    }

    /// Secondary accent color: gray.
    pub fn secondary() -> (c: Color)
        ensures
            c == static_color(rgba(127, 127, 127, 255)),
    {
        Color::gray()
    }

    /// Primary label color for text: black in light mode, white in dark mode.
    pub fn label() -> (c: Color)
        ensures
            c == semantic_color(SemanticColor::Label),
            color_wf(c),
    {
        Color::adaptive(SemanticColor::Label)
    }

    /// Secondary label color for subtitles and descriptions.
    pub fn secondary_label() -> (c: Color)
        ensures
            c == semantic_color(SemanticColor::SecondaryLabel),
            color_wf(c),
    {
        Color::adaptive(SemanticColor::SecondaryLabel)
    }

    /// Tertiary label color for placeholder text.
    pub fn tertiary_label() -> (c: Color)
        ensures
            c == semantic_color(SemanticColor::TertiaryLabel),
            color_wf(c),
    {
        Color::adaptive(SemanticColor::TertiaryLabel)
    }

    /// System background: white in light mode, black in dark mode.
    pub fn system_background() -> (c: Color)
        ensures
            c == semantic_color(SemanticColor::SystemBackground),
            color_wf(c),
    {
        Color::adaptive(SemanticColor::SystemBackground)
    }

    /// Secondary system background for grouped tables.
    pub fn secondary_system_background() -> (c: Color)
        ensures
            c == semantic_color(SemanticColor::SecondarySystemBackground),
            color_wf(c),
    {
        Color::adaptive(SemanticColor::SecondarySystemBackground)
    }

    /// Tertiary system background.
    pub fn tertiary_system_background() -> (c: Color)
        ensures
            c == semantic_color(SemanticColor::TertiarySystemBackground),
            color_wf(c),
    {
        Color::adaptive(SemanticColor::TertiarySystemBackground)
    }

    /// Separator color for dividers.
    pub fn separator() -> (c: Color)
        ensures
            c == semantic_color(SemanticColor::Separator),
            color_wf(c),
    {
        Color::adaptive(SemanticColor::Separator)
    }

    /// Opaque separator color.
    pub fn opaque_separator() -> (c: Color)
        ensures
            c == semantic_color(SemanticColor::OpaqueSeparator),
            color_wf(c),
    {
        Color::adaptive(SemanticColor::OpaqueSeparator)
    }

    /// Text field background color.
    pub fn text_field_background() -> (c: Color)
        ensures
            c == semantic_color(SemanticColor::TextFieldBackground),
            color_wf(c),
    {
        Color::adaptive(SemanticColor::TextFieldBackground)
    }

    /// Text field border color.
    pub fn text_field_border() -> (c: Color)
        ensures
            c == semantic_color(SemanticColor::TextFieldBorder),
            color_wf(c),
    {
        Color::adaptive(SemanticColor::TextFieldBorder)
    }

    /// Primary label color for text in light mode; `label` adapts by itself.
    pub fn label_light() -> (c: Color)
        ensures
            c == static_color(SemanticColor::Label.spec_resolve(false)),
    {
        Color::from_rgba(SemanticColor::Label.resolve(false))
    }

    /// Primary label color for text in dark mode; `label` adapts by itself.
    pub fn label_dark() -> (c: Color)
        ensures
            c == static_color(SemanticColor::Label.spec_resolve(true)),
    {
        Color::from_rgba(SemanticColor::Label.resolve(true))
    }

    /// Secondary label color in dark mode; `secondary_label` adapts by itself.
    pub fn secondary_label_dark() -> (c: Color)
        ensures
            c == static_color(SemanticColor::SecondaryLabel.spec_resolve(true)),
    {
        Color::from_rgba(SemanticColor::SecondaryLabel.resolve(true))
    }

    /// Tertiary label color in dark mode; `tertiary_label` adapts by itself.
    pub fn tertiary_label_dark() -> (c: Color)
        ensures
            c == static_color(SemanticColor::TertiaryLabel.spec_resolve(true)),
    {
        Color::from_rgba(SemanticColor::TertiaryLabel.resolve(true))
    }

    /// System background in dark mode; `system_background` adapts by itself.
    pub fn system_background_dark() -> (c: Color)
        ensures
            c == static_color(SemanticColor::SystemBackground.spec_resolve(true)),
    {
        Color::from_rgba(SemanticColor::SystemBackground.resolve(true))
    }

    /// Secondary system background in dark mode; `secondary_system_background` adapts by itself.
    pub fn secondary_system_background_dark() -> (c: Color)
        ensures
            c == static_color(SemanticColor::SecondarySystemBackground.spec_resolve(true)),
    {
        Color::from_rgba(SemanticColor::SecondarySystemBackground.resolve(true))
    }

    /// Tertiary system background in dark mode; `tertiary_system_background` adapts by itself.
    pub fn tertiary_system_background_dark() -> (c: Color)
        ensures
            c == static_color(SemanticColor::TertiarySystemBackground.spec_resolve(true)),
    {
        Color::from_rgba(SemanticColor::TertiarySystemBackground.resolve(true))
    }

    /// Separator color in dark mode; `separator` adapts by itself.
    pub fn separator_dark() -> (c: Color)
        ensures
            c == static_color(SemanticColor::Separator.spec_resolve(true)),
    {
        Color::from_rgba(SemanticColor::Separator.resolve(true))
    }

    /// Opaque separator color in dark mode; `opaque_separator` adapts by itself.
    pub fn opaque_separator_dark() -> (c: Color)
        ensures
            c == static_color(SemanticColor::OpaqueSeparator.spec_resolve(true)),
    {
        Color::from_rgba(SemanticColor::OpaqueSeparator.resolve(true))
    }
}

impl Default for Color {
    /// Black.
    fn default() -> (c: Color)
        ensures
            c == static_color(rgba(0, 0, 0, 255)),
    {
        Color::black()
    }
}

} // verus!
