//! Font weight and font design descriptors.
use vstd::prelude::*;

verus! {

/// Font weight options, from the thinnest to the heaviest.
#[derive(Clone, Copy, Debug, PartialEq, Eq, Structural)]
pub enum FontWeight {
    UltraLight,
    Thin,
    Light,
    Regular,
    Medium,
    Semibold,
    Bold,
    Heavy,
    Black,
}

impl Default for FontWeight {
    fn default() -> (r: Self)
        ensures
            r == FontWeight::Regular,
    {
        FontWeight::Regular
    }
}

/// The operating systems whose font families differ.
#[derive(Clone, Copy, Debug, PartialEq, Eq, Structural)]
pub enum Platform {
    MacOs,
    Windows,
    Linux,
    /// Any other system; it gets the generic family names.
    Other,
}

/// Font design options.
#[derive(Clone, Copy, Debug, PartialEq, Eq, Structural)]
pub enum FontDesign {
    /// The default system font design.
    Default,
    /// A serif font design.
    Serif,
    /// A monospaced font design.
    Monospaced,
    /// A rounded font design.
    Rounded,
}

impl Default for FontDesign {
    fn default() -> (r: Self)
        ensures
            r == FontDesign::Default,
    {
        FontDesign::Default
    }
}

pub open spec fn spec_monospace_family(p: Platform) -> Seq<char> {
    match p {
        Platform::MacOs => "SF Mono"@,
        Platform::Windows => "Cascadia Mono"@,
        Platform::Linux | Platform::Other => "monospace"@,
    }
}

pub open spec fn spec_serif_family(p: Platform) -> Seq<char> {
    match p {
        Platform::MacOs => "New York"@,
        Platform::Windows => "Georgia"@,
        Platform::Linux | Platform::Other => "serif"@,
    }
}

pub open spec fn spec_rounded_family(p: Platform) -> Seq<char> {
    match p {
        Platform::MacOs => "SF Pro Rounded"@,
        Platform::Windows => "Segoe UI"@,
        Platform::Linux | Platform::Other => "sans-serif"@,
    }
}

/// The family that a design uses on a platform; the default design names none.
pub open spec fn spec_family(d: FontDesign, p: Platform) -> Option<Seq<char>> {
    match d {
        FontDesign::Default => None,
        FontDesign::Monospaced => Some(spec_monospace_family(p)),
        FontDesign::Serif => Some(spec_serif_family(p)),
        FontDesign::Rounded => Some(spec_rounded_family(p)),
    }
}

pub open spec fn family_view(f: Option<&'static str>) -> Option<Seq<char>> {
    match f {
        Some(s) => Some(s@),
        None => None,
    }
}

impl FontDesign {
    /// The monospaced family of a platform.
    pub fn monospace_family(platform: Platform) -> (r: &'static str)
        ensures
            r@ == spec_monospace_family(platform),
    {
        match platform {
            Platform::MacOs => "SF Mono",
            Platform::Windows => "Cascadia Mono",
            Platform::Linux | Platform::Other => "monospace",
        }
    }

    /// The serif family of a platform.
    pub fn serif_family(platform: Platform) -> (r: &'static str)
        ensures
            r@ == spec_serif_family(platform),
    {
        match platform {
            Platform::MacOs => "New York",
            Platform::Windows => "Georgia",
            Platform::Linux | Platform::Other => "serif",
        }
    }

    /// The rounded family of a platform.
    pub fn rounded_family(platform: Platform) -> (r: &'static str)
        ensures
            r@ == spec_rounded_family(platform),
    {
        match platform {
            Platform::MacOs => "SF Pro Rounded",
            Platform::Windows => "Segoe UI",
            Platform::Linux | Platform::Other => "sans-serif",
        }
    }

    /// The font family name of this design on the given platform, or `None`
    /// for the default design, which keeps the system font.
    pub fn font_family_on(&self, platform: Platform) -> (r: Option<&'static str>)
        ensures
            family_view(r) == spec_family(*self, platform),
    {
        match self {
            FontDesign::Default => None,
            FontDesign::Monospaced => Some(FontDesign::monospace_family(platform)),
            FontDesign::Serif => Some(FontDesign::serif_family(platform)),
            FontDesign::Rounded => Some(FontDesign::rounded_family(platform)),
        }
    }

    /// The generic font family name of this design (`monospace`, `serif`,
    /// `sans-serif`), or `None` for the default design. Use `font_family_on`
    /// for the family that a given platform ships.
    pub fn font_family(&self) -> (r: Option<&'static str>)
        ensures
            family_view(r) == spec_family(*self, Platform::Other),
    {
        self.font_family_on(Platform::Other)
    }
}

} // verus!
