//! Shader functions that come with the library, ready to be declared in a
//! shader source.

pub mod dither;
pub mod fast_hash;
pub mod gerstner_waves;
pub mod lighting_functions;

pub use lighting_functions::get_pbr_functions;
