//! A view that displays nothing.
use vstd::prelude::*;

verus! {

/// A view that displays nothing and takes up no space; a placeholder for
/// conditional content.
#[derive(Clone, Copy, Debug, PartialEq, Eq, Structural)]
pub struct EmptyView;

impl EmptyView {
    /// An empty view.
    pub fn new() -> (r: EmptyView)
        ensures
            r == EmptyView,
    {
        EmptyView
    }
}

impl Default for EmptyView {
    fn default() -> (r: EmptyView)
        ensures
            r == EmptyView,
    {
        EmptyView::new()
    }
}

} // verus!
