//! Value types shared by the view modifiers.
use vstd::prelude::*;

verus! {

/// How content is scaled into a frame of another aspect ratio.
#[derive(Clone, Copy, Debug, PartialEq, Eq, Structural)]
pub enum ContentMode {
    /// Scale until the content fits inside the frame.
    Fit,
    /// Scale until the content covers the frame.
    Fill,
}

impl Default for ContentMode {
    fn default() -> (r: Self)
        ensures
            r == ContentMode::Fit,
    {
        ContentMode::Fit
    }
}

} // verus!
