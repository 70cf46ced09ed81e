//! Numerical and color-mapping helpers for rendering an image as a character
//! grid in a terminal: quantizing an RGB triple to the nearest of the 16
//! standard ANSI colors, computing the tile/column/row layout for
//! down-sampling an image, a bounded forward/reverse counter, and a check of
//! a terminal's truecolor signal.

use vstd::prelude::*;

pub mod color;
pub mod counter;
pub mod dimensions;
pub mod term;

pub use color::nearest_ansi;
pub use color::rgb_to_ansi;
pub use color::AnsiColor;
pub use counter::range;
pub use counter::BoundedRange;
pub use dimensions::ResizingDimension;

verus! {

/// The failures a caller can be handed: a dimension-layout input that would
/// force a division by zero, or a counter range whose end lies before its
/// start.
#[derive(Debug, PartialEq, Eq, Structural, Clone, Copy)]
pub enum UtilError {
    InvalidDimension,
    InvalidCounterRange,
}

} // verus!
