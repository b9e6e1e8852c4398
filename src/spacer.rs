//! The axis along which a spacer expands.
use vstd::prelude::*;

verus! {

/// The axis along which a spacer expands, and to which its minimum length applies.
#[derive(Clone, Copy, Debug, PartialEq, Eq, Structural)]
pub enum SpacerAxis {
    /// Expand along the horizontal axis (in a horizontal stack).
    Horizontal,
    /// Expand along the vertical axis (in a vertical stack).
    Vertical,
    /// Expand along both axes (the default).
    Both,
}

impl Default for SpacerAxis {
    fn default() -> (r: Self)
        ensures
            r == SpacerAxis::Both,
    {
        SpacerAxis::Both
    }
}

impl SpacerAxis {
    /// Whether a minimum length constrains the spacer's width.
    pub fn constrains_width(self) -> (r: bool)
        ensures
            r == (self != SpacerAxis::Vertical),
    {
        match self {
            SpacerAxis::Horizontal | SpacerAxis::Both => true,
            SpacerAxis::Vertical => false,
        }
    }

    /// Whether a minimum length constrains the spacer's height.
    pub fn constrains_height(self) -> (r: bool)
        ensures
            r == (self != SpacerAxis::Horizontal),
    {
        match self {
            SpacerAxis::Vertical | SpacerAxis::Both => true,
            SpacerAxis::Horizontal => false,
        }
    }
}

} // verus!
