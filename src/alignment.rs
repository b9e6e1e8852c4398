//! Alignment types used to position content within containers and frames.
use vstd::prelude::*;

verus! {

/// Where a flexbox container places its children along one axis.
#[derive(Clone, Copy, Debug, PartialEq, Eq, Structural)]
pub enum FlexAlign {
    Start,
    Center,
    End,
    Baseline,
}

/// Horizontal alignment within a container.
///
/// A vertical stack uses it for the horizontal position of its children; grids
/// and frames use it for the horizontal position of their content.
#[derive(Clone, Copy, Debug, PartialEq, Eq, Structural)]
pub enum HorizontalAlignment {
    Leading,
    Center,
    Trailing,
}

impl Default for HorizontalAlignment {
    fn default() -> (r: Self)
        ensures
            r == HorizontalAlignment::Center,
    {
        HorizontalAlignment::Center
    }
}

impl HorizontalAlignment {
    /// The flexbox position this alignment stands for: leading is the start of
    /// the axis, trailing its end.
    pub open spec fn spec_flex_align(self) -> FlexAlign {
        match self {
            HorizontalAlignment::Leading => FlexAlign::Start,
            HorizontalAlignment::Center => FlexAlign::Center,
            HorizontalAlignment::Trailing => FlexAlign::End,
        }
    }

    /// The flexbox position of this alignment, used both as `align-items` in a
    /// column and as `justify-content` in a row.
    pub fn flex_align(self) -> (r: FlexAlign)
        ensures
            r == self.spec_flex_align(),
            r != FlexAlign::Baseline,
    {
        match self {
            HorizontalAlignment::Leading => FlexAlign::Start,
            HorizontalAlignment::Center => FlexAlign::Center,
            HorizontalAlignment::Trailing => FlexAlign::End,
        }
    }
}

/// Vertical alignment within a container.
#[derive(Clone, Copy, Debug, PartialEq, Eq, Structural)]
pub enum VerticalAlignment {
    /// Align to the top edge.
    Top,
    /// Align to the vertical center.
    Center,
    /// Align to the bottom edge.
    Bottom,
    /// Align to the baseline of the first line of text.
    FirstTextBaseline,
    /// Align to the baseline of the last line of text. Flexbox knows a single
    /// baseline, so this places content as `FirstTextBaseline` does.
    LastTextBaseline,
}

impl Default for VerticalAlignment {
    fn default() -> (r: Self)
        ensures
            r == VerticalAlignment::Center,
    {
        VerticalAlignment::Center
    }
}

impl VerticalAlignment {
    /// The flexbox position this alignment stands for.
    pub open spec fn spec_flex_align(self) -> FlexAlign {
        match self {
            VerticalAlignment::Top => FlexAlign::Start,
            VerticalAlignment::Center => FlexAlign::Center,
            VerticalAlignment::Bottom => FlexAlign::End,
            VerticalAlignment::FirstTextBaseline => FlexAlign::Baseline,
            VerticalAlignment::LastTextBaseline => FlexAlign::Baseline,
        }
    }

    /// The flexbox `align-items` position of this alignment.
    pub fn flex_align(self) -> (r: FlexAlign)
        ensures
            r == self.spec_flex_align(),
    {
        match self {
            VerticalAlignment::Top => FlexAlign::Start,
            VerticalAlignment::Center => FlexAlign::Center,
            VerticalAlignment::Bottom => FlexAlign::End,
            VerticalAlignment::FirstTextBaseline | VerticalAlignment::LastTextBaseline => {
                FlexAlign::Baseline
            },
        }
    }
}

/// A two-dimensional alignment: a horizontal and a vertical part.
///
/// Overlay stacks, grids and frames use it to place content on both axes.
#[derive(Clone, Copy, Debug, PartialEq, Eq, Structural)]
pub struct Alignment {
    pub horizontal: HorizontalAlignment,
    pub vertical: VerticalAlignment,
}

impl Default for Alignment {
    fn default() -> (r: Self)
        ensures
            r.horizontal == HorizontalAlignment::Center,
            r.vertical == VerticalAlignment::Center,
    {
        Alignment::center()
    }
}

impl Alignment {
    pub fn center() -> (r: Self)
        ensures
            r.horizontal == HorizontalAlignment::Center,
            r.vertical == VerticalAlignment::Center,
    {
        Alignment { horizontal: HorizontalAlignment::Center, vertical: VerticalAlignment::Center }
    }

    pub fn top_leading() -> (r: Self)
        ensures
            r.horizontal == HorizontalAlignment::Leading,
            r.vertical == VerticalAlignment::Top,
    {
        Alignment { horizontal: HorizontalAlignment::Leading, vertical: VerticalAlignment::Top }
    }

    pub fn top() -> (r: Self)
        ensures
            r.horizontal == HorizontalAlignment::Center,
            r.vertical == VerticalAlignment::Top,
    {
        Alignment { horizontal: HorizontalAlignment::Center, vertical: VerticalAlignment::Top }
    }

    pub fn top_trailing() -> (r: Self)
        ensures
            r.horizontal == HorizontalAlignment::Trailing,
            r.vertical == VerticalAlignment::Top,
    {
        Alignment { horizontal: HorizontalAlignment::Trailing, vertical: VerticalAlignment::Top }
    }

    pub fn leading() -> (r: Self)
        ensures
            r.horizontal == HorizontalAlignment::Leading,
            r.vertical == VerticalAlignment::Center,
    {
        Alignment { horizontal: HorizontalAlignment::Leading, vertical: VerticalAlignment::Center }
    }

    pub fn trailing() -> (r: Self)
        ensures
            r.horizontal == HorizontalAlignment::Trailing,
            r.vertical == VerticalAlignment::Center,
    {
        Alignment { horizontal: HorizontalAlignment::Trailing, vertical: VerticalAlignment::Center }
    }

    pub fn bottom_leading() -> (r: Self)
        ensures
            r.horizontal == HorizontalAlignment::Leading,
            r.vertical == VerticalAlignment::Bottom,
    {
        Alignment { horizontal: HorizontalAlignment::Leading, vertical: VerticalAlignment::Bottom }
    }

    pub fn bottom() -> (r: Self)
        ensures
            r.horizontal == HorizontalAlignment::Center,
            r.vertical == VerticalAlignment::Bottom,
    {
        Alignment { horizontal: HorizontalAlignment::Center, vertical: VerticalAlignment::Bottom }
    }

    pub fn bottom_trailing() -> (r: Self)
        ensures
            r.horizontal == HorizontalAlignment::Trailing,
            r.vertical == VerticalAlignment::Bottom,
    {
        Alignment { horizontal: HorizontalAlignment::Trailing, vertical: VerticalAlignment::Bottom }
    }
}

} // verus!
