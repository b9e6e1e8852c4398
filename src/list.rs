//! List styles, edge sets and the spacing that each list style uses.
use vstd::prelude::*;

verus! {

/// The visual style of a list.
#[derive(Clone, Copy, Debug, PartialEq, Eq, Structural)]
pub enum ListStyle {
    Automatic,
    Plain,
    InsetGrouped,
    Grouped,
    Sidebar,
}

impl Default for ListStyle {
    fn default() -> (r: Self)
        ensures
            r == ListStyle::Automatic,
    {
        ListStyle::Automatic
    }
}

impl ListStyle {
    pub fn automatic() -> (r: Self)
        ensures
            r == ListStyle::Automatic,
    {
        ListStyle::Automatic
    }

    pub fn plain() -> (r: Self)
        ensures
            r == ListStyle::Plain,
    {
        ListStyle::Plain
    }

    pub fn inset_grouped() -> (r: Self)
        ensures
            r == ListStyle::InsetGrouped,
    {
        ListStyle::InsetGrouped
    }

    pub fn grouped() -> (r: Self)
        ensures
            r == ListStyle::Grouped,
    {
        ListStyle::Grouped
    }

    pub fn sidebar() -> (r: Self)
        ensures
            r == ListStyle::Sidebar,
    {
        ListStyle::Sidebar
    }

    /// Whether the style groups its sections (grouped and inset grouped).
    pub open spec fn is_grouped(self) -> bool {
        self == ListStyle::Grouped || self == ListStyle::InsetGrouped
    }

    /// Points between sections when the list keeps the default section
    /// spacing: 24 for grouped styles, 12 for a sidebar, 16 otherwise.
    pub fn default_section_spacing(self) -> (r: u32)
        ensures
            r == (if self.is_grouped() {
                24u32
            } else if self == ListStyle::Sidebar {
                12u32
            } else {
                16u32
            }),
    {
        match self {
            ListStyle::InsetGrouped | ListStyle::Grouped => 24,
            ListStyle::Plain | ListStyle::Automatic => 16,
            ListStyle::Sidebar => 12,
        }
    }

    /// Points between sections with compact section spacing: 8 for grouped
    /// styles, 4 otherwise.
    pub fn compact_section_spacing(self) -> (r: u32)
        ensures
            r == (if self.is_grouped() {
                8u32
            } else {
                4u32
            }),
    {
        match self {
            ListStyle::InsetGrouped | ListStyle::Grouped => 8,
            _ => 4,
        }
    }

    /// Points of padding around the list's content: 16 for grouped styles,
    /// 8 for a sidebar, none for plain lists.
    pub fn content_padding(self) -> (r: u32)
        ensures
            r == (if self.is_grouped() {
                16u32
            } else if self == ListStyle::Sidebar {
                8u32
            } else {
                0u32
            }),
    {
        match self {
            ListStyle::Automatic | ListStyle::Plain => 0,
            ListStyle::InsetGrouped | ListStyle::Grouped => 16,
            ListStyle::Sidebar => 8,
        }
    }
}

/// A list setting as a section sees it: the section's own value if it set
/// one, else the value the list passed down, else the built-in fallback.
pub fn cascade<T>(own: Option<T>, inherited: Option<T>, fallback: T) -> (r: T)
    ensures
        r == (match own {
            Some(v) => v,
            None => match inherited {
                Some(v) => v,
                None => fallback,
            },
        }),
{
    match own {
        Some(v) => v,
        None => match inherited {
            Some(v) => v,
            None => fallback,
        },
    }
}

/// Whether row `index` of a section with `rows` rows draws a separator below
/// it: every row but the last does, unless the rows are set apart by spacing.
pub fn row_has_separator(index: usize, rows: usize, spaced: bool) -> (r: bool)
    ensures
        r == (index + 1 < rows && !spaced),
{
    index < rows && index != rows - 1 && !spaced
}

/// A set of edges of a rectangle.
#[derive(Clone, Copy, Debug, PartialEq, Eq, Structural)]
pub struct EdgeSet {
    pub top: bool,
    pub leading: bool,
    pub bottom: bool,
    pub trailing: bool,
}

pub open spec fn edges(top: bool, leading: bool, bottom: bool, trailing: bool) -> EdgeSet {
    EdgeSet { top, leading, bottom, trailing }
}

impl Default for EdgeSet {
    /// No edge.
    fn default() -> (r: Self)
        ensures
            r == edges(false, false, false, false),
    {
        EdgeSet { top: false, leading: false, bottom: false, trailing: false }
    }
}

impl EdgeSet {
    pub fn all() -> (r: Self)
        ensures
            r == edges(true, true, true, true),
    {
        EdgeSet { top: true, leading: true, bottom: true, trailing: true }
    }

    /// The leading and trailing edges.
    pub fn horizontal() -> (r: Self)
        ensures
            r == edges(false, true, false, true),
    {
        EdgeSet { top: false, leading: true, bottom: false, trailing: true }
    }

    /// The top and bottom edges.
    pub fn vertical() -> (r: Self)
        ensures
            r == edges(true, false, true, false),
    {
        EdgeSet { top: true, leading: false, bottom: true, trailing: false }
    }

    pub fn top() -> (r: Self)
        ensures
            r == edges(true, false, false, false),
    {
        EdgeSet { top: true, leading: false, bottom: false, trailing: false }
    }

    pub fn bottom() -> (r: Self)
        ensures
            r == edges(false, false, true, false),
    {
        EdgeSet { top: false, leading: false, bottom: true, trailing: false }
    }

    pub fn leading() -> (r: Self)
        ensures
            r == edges(false, true, false, false),
    {
        EdgeSet { top: false, leading: true, bottom: false, trailing: false }
    }

    pub fn trailing() -> (r: Self)
        ensures
            r == edges(false, false, false, true),
    {
        EdgeSet { top: false, leading: false, bottom: false, trailing: true }
    }
}

} // verus!
