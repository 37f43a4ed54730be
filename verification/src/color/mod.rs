//! Colours.

pub mod rgba;

pub use rgba::RGBElems;
