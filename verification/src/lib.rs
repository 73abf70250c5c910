//! Escape-time Mandelbrot rendering core: a gradient palette, exact
//! integer color blending, and the mapping from smoothed iteration
//! counts to pixel colors.

pub mod color;
pub mod palette;
pub mod render;

pub use color::Color;
pub use palette::Palette;
