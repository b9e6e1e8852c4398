//! Styles of buttons, progress views and text truncation.
use vstd::prelude::*;

verus! {

/// The visual style of a button.
#[derive(Clone, Copy, Debug, PartialEq, Eq, Structural)]
pub enum ButtonStyle {
    /// Automatic style based on context.
    Automatic,
    /// Plain button with no chrome.
    Plain,
    /// Button with a visible border.
    Bordered,
    /// Button with a filled background.
    BorderedProminent,
    /// Button with minimal styling.
    Borderless,
}

impl Default for ButtonStyle {
    fn default() -> (r: Self)
        ensures
            r == ButtonStyle::Automatic,
    {
        ButtonStyle::Automatic
    }
}

/// What a button draws around its label.
#[derive(Clone, Copy, Debug, PartialEq, Eq, Structural)]
pub enum ButtonChrome {
    /// A rounded border.
    Outline,
    /// A rounded, filled background with light text.
    Filled,
    /// Nothing but the label.
    Bare,
}

impl ButtonStyle {
    /// The chrome of each style: the automatic style is bordered, the
    /// prominent one filled, plain and borderless buttons have none.
    pub fn chrome(self) -> (r: ButtonChrome)
        ensures
            r == (match self {
                ButtonStyle::Automatic | ButtonStyle::Bordered => ButtonChrome::Outline,
                ButtonStyle::BorderedProminent => ButtonChrome::Filled,
                ButtonStyle::Plain | ButtonStyle::Borderless => ButtonChrome::Bare,
            }),
    {
        match self {
            ButtonStyle::Automatic | ButtonStyle::Bordered => ButtonChrome::Outline,
            ButtonStyle::BorderedProminent => ButtonChrome::Filled,
            ButtonStyle::Plain | ButtonStyle::Borderless => ButtonChrome::Bare,
        }
    }
}

/// The style of a progress view.
#[derive(Clone, Copy, Debug, PartialEq, Eq, Structural)]
pub enum ProgressViewStyle {
    /// Circular spinner.
    Circular,
    /// Linear progress bar.
    Linear,
}

impl Default for ProgressViewStyle {
    fn default() -> (r: Self)
        ensures
            r == ProgressViewStyle::Circular,
    {
        ProgressViewStyle::Circular
    }
}

/// How text is truncated when it does not fit in its container.
#[derive(Clone, Copy, Debug, PartialEq, Eq, Structural)]
pub enum TruncationMode {
    /// Truncate at the head of the line, replacing removed text with an ellipsis.
    Head,
    /// Truncate at the tail of the line, replacing removed text with an ellipsis.
    Tail,
    /// Truncate in the middle of the line, replacing removed text with an ellipsis.
    Middle,
}

impl Default for TruncationMode {
    fn default() -> (r: Self)
        ensures
            r == TruncationMode::Tail,
    {
        TruncationMode::Tail
    }
}

} // verus!
