//! Scroll axes, and how a scroll view lays out and scrolls for each of them.
use vstd::prelude::*;

verus! {

/// Which axes of a scroll view scroll.
#[derive(Clone, Copy, Debug, PartialEq, Eq, Structural)]
pub enum ScrollAxes {
    /// Scroll vertically only (the default).
    Vertical,
    /// Scroll horizontally only.
    Horizontal,
    /// Scroll in both directions.
    Both,
}

impl Default for ScrollAxes {
    fn default() -> (r: Self)
        ensures
            r == ScrollAxes::Vertical,
    {
        ScrollAxes::Vertical
    }
}

/// The direction in which a container stacks its children.
#[derive(Clone, Copy, Debug, PartialEq, Eq, Structural)]
pub enum FlexDirection {
    Column,
    Row,
}

/// How a scroll view's content overflows.
#[derive(Clone, Copy, Debug, PartialEq, Eq, Structural)]
pub enum ScrollOverflow {
    /// Scrolls vertically, with a visible scrollbar.
    VerticalWithBar,
    /// Scrolls vertically, without a scrollbar.
    Vertical,
    /// Scrolls horizontally, with a visible scrollbar.
    HorizontalWithBar,
    /// Scrolls horizontally, without a scrollbar.
    Horizontal,
    /// Scrolls on both axes.
    Both,
}

/// The layout of a scroll view: how it stacks its children and how it scrolls.
#[derive(Clone, Copy, Debug, PartialEq, Eq, Structural)]
pub struct ScrollLayout {
    pub direction: FlexDirection,
    pub overflow: ScrollOverflow,
}

/// A vertical scroll view stacks in a column and a horizontal one in a row;
/// scrolling on both axes stacks in a column and has no indicator choice.
pub open spec fn spec_scroll_layout(axes: ScrollAxes, shows_indicators: bool) -> ScrollLayout {
    match axes {
        ScrollAxes::Vertical => ScrollLayout {
            direction: FlexDirection::Column,
            overflow: if shows_indicators {
                ScrollOverflow::VerticalWithBar
            } else {
                ScrollOverflow::Vertical
            },
        },
        ScrollAxes::Horizontal => ScrollLayout {
            direction: FlexDirection::Row,
            overflow: if shows_indicators {
                ScrollOverflow::HorizontalWithBar
            } else {
                ScrollOverflow::Horizontal
            },
        },
        ScrollAxes::Both => ScrollLayout {
            direction: FlexDirection::Column,
            overflow: ScrollOverflow::Both,
        },
    }
}

impl ScrollAxes {
    /// Axes that scroll vertically.
    pub fn vertical() -> (r: Self)
        ensures
            r == ScrollAxes::Vertical,
    {
        ScrollAxes::Vertical
    }

    /// Axes that scroll horizontally.
    pub fn horizontal() -> (r: Self)
        ensures
            r == ScrollAxes::Horizontal,
    {
        ScrollAxes::Horizontal
    }

    /// Axes that scroll in both directions.
    pub fn both() -> (r: Self)
        ensures
            r == ScrollAxes::Both,
    {
        ScrollAxes::Both
    }

    /// The layout of a scroll view over these axes.
    pub fn layout(self, shows_indicators: bool) -> (r: ScrollLayout)
        ensures
            r == spec_scroll_layout(self, shows_indicators),
    {
        match (self, shows_indicators) {
            (ScrollAxes::Vertical, true) => ScrollLayout {
                direction: FlexDirection::Column,
                overflow: ScrollOverflow::VerticalWithBar,
            },
            (ScrollAxes::Vertical, false) => ScrollLayout {
                direction: FlexDirection::Column,
                overflow: ScrollOverflow::Vertical,
            },
            (ScrollAxes::Horizontal, true) => ScrollLayout {
                direction: FlexDirection::Row,
                overflow: ScrollOverflow::HorizontalWithBar,
            },
            (ScrollAxes::Horizontal, false) => ScrollLayout {
                direction: FlexDirection::Row,
                overflow: ScrollOverflow::Horizontal,
            },
            (ScrollAxes::Both, _) => ScrollLayout {
                direction: FlexDirection::Column,
                overflow: ScrollOverflow::Both,
            },
        }
    }
}

} // verus!
