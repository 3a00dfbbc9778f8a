//! Pixel-space layout of a rectangular chart.
//!
//! A [`ChartLayout`] describes the bands around the plotting area of a chart:
//! a title band with a caption, margins and axis label areas on the four
//! sides. It tells how large an image has to be for a plotting area of a given
//! size, and, bound to a surface, how large the plotting area on that surface
//! is. [`centering_ranges`] widens a rectangle of values so that it has the
//! aspect ratio of a rectangle of pixels.
//!
//! The library computes sizes and positions. Drawing is left to the caller:
//! binding a layout yields what is to be drawn into the title band, and
//! building a coordinate system yields its settings.

pub mod centering;
pub mod chart;
pub mod text;

pub use crate::centering::centering_ranges;
pub use crate::chart::{
    Cartesian2dLayout, ChartLayout, ChartLayoutBuilder, LayoutError, Sides, TitleBand,
};
pub use crate::text::{HorizontalAnchor, VerticalAnchor};
