//! Allui: a declarative, SwiftUI-style vocabulary of views and modifiers.
//!
//! This crate holds the parts of the toolkit that are plain data and plain
//! decisions: alignments, colors and their light/dark resolution, font
//! descriptors, list and grid arithmetic, the system-image name table and the
//! image placeholder captions. Each function states its result in its contract.

pub mod alignment;
pub mod color;
pub mod controls;
pub mod empty_view;
pub mod font;
pub mod grid;
pub mod icon;
pub mod image;
pub mod list;
pub mod modifier;
pub mod scroll_view;
pub mod spacer;

pub use alignment::{Alignment, FlexAlign, HorizontalAlignment, VerticalAlignment};
pub use color::{Color, Rgba, SemanticColor};
pub use controls::{ButtonChrome, ButtonStyle, ProgressViewStyle, TruncationMode};
pub use empty_view::EmptyView;
pub use font::{FontDesign, FontWeight, Platform};
pub use grid::GridLine;
pub use icon::{map_system_image_to_icon, SystemIcon};
pub use image::{Image, ImageSource};
pub use list::{EdgeSet, ListStyle};
pub use modifier::ContentMode;
pub use scroll_view::{FlexDirection, ScrollAxes, ScrollLayout, ScrollOverflow};
pub use spacer::SpacerAxis;
