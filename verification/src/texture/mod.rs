//! Textures: the values that describe them, and the units that they are
//! bound to.

pub mod constants;
pub mod units;

pub use constants::{
    MagFilter, MinFilter, TextureBindTarget, TextureCompareFunc, TextureFormat,
    TextureInternalFormat, TextureType, TextureWrap, TextureWrapSelect,
};
pub use units::{
    texture_unit_code, BoundTextureUnitsStatus, TextureBindData, TextureId, TextureUnits,
};
