//! The enumerated values that textures are described with.

use vstd::prelude::*;
use vstd::std_specs::convert::FromSpecImpl;

use crate::codes;

verus! {

/// A target that a texture is bound to.
#[derive(Clone, Copy, Debug, PartialEq, Eq, Hash, Structural)]
pub struct TextureBindTarget(u32);

#[allow(non_snake_case)]
impl TextureBindTarget {
    #[verifier::type_invariant]
    spec fn is_known(self) -> bool {
        Self::names(self.0)
    }

    /// Whether `code` is the number of a value of this type.
    pub open spec fn names(code: u32) -> bool {
        ||| code == codes::TEXTURE_2D
        ||| code == codes::TEXTURE_3D
        ||| code == codes::TEXTURE_CUBE_MAP
        ||| code == codes::TEXTURE_2D_ARRAY
    }

    /// The number that WebGL2 knows the value by.
    pub closed spec fn code(self) -> u32 {
        self.0
    }

    pub fn TEXTURE_2D() -> (value: Self)
        ensures
            value.code() == codes::TEXTURE_2D,
    {
        TextureBindTarget(codes::TEXTURE_2D)
    }

    pub fn TEXTURE_3D() -> (value: Self)
        ensures
            value.code() == codes::TEXTURE_3D,
    {
        TextureBindTarget(codes::TEXTURE_3D)
    }

    pub fn TEXTURE_CUBE_MAP() -> (value: Self)
        ensures
            value.code() == codes::TEXTURE_CUBE_MAP,
    {
        TextureBindTarget(codes::TEXTURE_CUBE_MAP)
    }

    pub fn TEXTURE_2D_ARRAY() -> (value: Self)
        ensures
            value.code() == codes::TEXTURE_2D_ARRAY,
    {
        TextureBindTarget(codes::TEXTURE_2D_ARRAY)
    }
}

impl From<TextureBindTarget> for u32 {
    fn from(value: TextureBindTarget) -> (code: u32) {
        value.0
    }
}

impl FromSpecImpl<TextureBindTarget> for u32 {
    open spec fn obeys_from_spec() -> bool {
        true
    }

    open spec fn from_spec(value: TextureBindTarget) -> u32 {
        value.code()
    }
}

/// How a texture is sampled when it is magnified.
#[derive(Clone, Copy, Debug, PartialEq, Eq, Hash, Structural)]
pub struct MagFilter(u32);

#[allow(non_snake_case)]
impl MagFilter {
    #[verifier::type_invariant]
    spec fn is_known(self) -> bool {
        Self::names(self.0)
    }

    /// Whether `code` is the number of a value of this type.
    pub open spec fn names(code: u32) -> bool {
        ||| code == codes::LINEAR
        ||| code == codes::NEAREST
    }

    /// The number that WebGL2 knows the value by.
    pub closed spec fn code(self) -> u32 {
        self.0
    }

    pub fn LINEAR() -> (value: Self)
        ensures
            value.code() == codes::LINEAR,
    {
        MagFilter(codes::LINEAR)
    }

    pub fn NEAREST() -> (value: Self)
        ensures
            value.code() == codes::NEAREST,
    {
        MagFilter(codes::NEAREST)
    }
}

impl From<MagFilter> for u32 {
    fn from(value: MagFilter) -> (code: u32) {
        value.0
    }
}

impl FromSpecImpl<MagFilter> for u32 {
    open spec fn obeys_from_spec() -> bool {
        true
    }

    open spec fn from_spec(value: MagFilter) -> u32 {
        value.code()
    }
}

/// How a texture is sampled when it is minified.
#[derive(Clone, Copy, Debug, PartialEq, Eq, Hash, Structural)]
pub struct MinFilter(u32);

#[allow(non_snake_case)]
impl MinFilter {
    #[verifier::type_invariant]
    spec fn is_known(self) -> bool {
        Self::names(self.0)
    }

    /// Whether `code` is the number of a value of this type.
    pub open spec fn names(code: u32) -> bool {
        ||| code == codes::LINEAR
        ||| code == codes::NEAREST
        ||| code == codes::NEAREST_MIPMAP_NEAREST
        ||| code == codes::LINEAR_MIPMAP_NEAREST
        ||| code == codes::NEAREST_MIPMAP_LINEAR
        ||| code == codes::LINEAR_MIPMAP_LINEAR
    }

    /// The number that WebGL2 knows the value by.
    pub closed spec fn code(self) -> u32 {
        self.0
    }

    pub fn LINEAR() -> (value: Self)
        ensures
            value.code() == codes::LINEAR,
    {
        MinFilter(codes::LINEAR)
    }

    pub fn NEAREST() -> (value: Self)
        ensures
            value.code() == codes::NEAREST,
    {
        MinFilter(codes::NEAREST)
    }

    pub fn NEAREST_MIPMAP_NEAREST() -> (value: Self)
        ensures
            value.code() == codes::NEAREST_MIPMAP_NEAREST,
    {
        MinFilter(codes::NEAREST_MIPMAP_NEAREST)
    }

    pub fn LINEAR_MIPMAP_NEAREST() -> (value: Self)
        ensures
            value.code() == codes::LINEAR_MIPMAP_NEAREST,
    {
        MinFilter(codes::LINEAR_MIPMAP_NEAREST)
    }

    pub fn NEAREST_MIPMAP_LINEAR() -> (value: Self)
        ensures
            value.code() == codes::NEAREST_MIPMAP_LINEAR,
    {
        MinFilter(codes::NEAREST_MIPMAP_LINEAR)
    }

    pub fn LINEAR_MIPMAP_LINEAR() -> (value: Self)
        ensures
            value.code() == codes::LINEAR_MIPMAP_LINEAR,
    {
        MinFilter(codes::LINEAR_MIPMAP_LINEAR)
    }
}

impl From<MinFilter> for u32 {
    fn from(value: MinFilter) -> (code: u32) {
        value.0
    }
}

impl FromSpecImpl<MinFilter> for u32 {
    open spec fn obeys_from_spec() -> bool {
        true
    }

    open spec fn from_spec(value: MinFilter) -> u32 {
        value.code()
    }
}

/// What a texture gives outside its borders.
#[derive(Clone, Copy, Debug, PartialEq, Eq, Hash, Structural)]
pub struct TextureWrap(u32);

#[allow(non_snake_case)]
impl TextureWrap {
    #[verifier::type_invariant]
    spec fn is_known(self) -> bool {
        Self::names(self.0)
    }

    /// Whether `code` is the number of a value of this type.
    pub open spec fn names(code: u32) -> bool {
        ||| code == codes::REPEAT
        ||| code == codes::CLAMP_TO_EDGE
        ||| code == codes::MIRRORED_REPEAT
    }

    /// The number that WebGL2 knows the value by.
    pub closed spec fn code(self) -> u32 {
        self.0
    }

    pub fn REPEAT() -> (value: Self)
        ensures
            value.code() == codes::REPEAT,
    {
        TextureWrap(codes::REPEAT)
    }

    pub fn CLAMP_TO_EDGE() -> (value: Self)
        ensures
            value.code() == codes::CLAMP_TO_EDGE,
    {
        TextureWrap(codes::CLAMP_TO_EDGE)
    }

    pub fn MIRRORED_REPEAT() -> (value: Self)
        ensures
            value.code() == codes::MIRRORED_REPEAT,
    {
        TextureWrap(codes::MIRRORED_REPEAT)
    }
}

impl From<TextureWrap> for u32 {
    fn from(value: TextureWrap) -> (code: u32) {
        value.0
    }
}

impl FromSpecImpl<TextureWrap> for u32 {
    open spec fn obeys_from_spec() -> bool {
        true
    }

    open spec fn from_spec(value: TextureWrap) -> u32 {
        value.code()
    }
}

/// The axis that a wrap mode is set for.
#[derive(Clone, Copy, Debug, PartialEq, Eq, Hash, Structural)]
pub struct TextureWrapSelect(u32);

#[allow(non_snake_case)]
impl TextureWrapSelect {
    #[verifier::type_invariant]
    spec fn is_known(self) -> bool {
        Self::names(self.0)
    }

    /// Whether `code` is the number of a value of this type.
    pub open spec fn names(code: u32) -> bool {
        ||| code == codes::TEXTURE_WRAP_S
        ||| code == codes::TEXTURE_WRAP_T
        ||| code == codes::TEXTURE_WRAP_R
    }

    /// The number that WebGL2 knows the value by.
    pub closed spec fn code(self) -> u32 {
        self.0
    }

    pub fn TEXTURE_WRAP_X() -> (value: Self)
        ensures
            value.code() == codes::TEXTURE_WRAP_S,
    {
        TextureWrapSelect(codes::TEXTURE_WRAP_S)
    }

    pub fn TEXTURE_WRAP_Y() -> (value: Self)
        ensures
            value.code() == codes::TEXTURE_WRAP_T,
    {
        TextureWrapSelect(codes::TEXTURE_WRAP_T)
    }

    pub fn TEXTURE_WRAP_Z() -> (value: Self)
        ensures
            value.code() == codes::TEXTURE_WRAP_R,
    {
        TextureWrapSelect(codes::TEXTURE_WRAP_R)
    }
}

impl From<TextureWrapSelect> for u32 {
    fn from(value: TextureWrapSelect) -> (code: u32) {
        value.0
    }
}

impl FromSpecImpl<TextureWrapSelect> for u32 {
    open spec fn obeys_from_spec() -> bool {
        true
    }

    open spec fn from_spec(value: TextureWrapSelect) -> u32 {
        value.code()
    }
}

/// The comparison that a depth texture makes when it is sampled.
#[derive(Clone, Copy, Debug, PartialEq, Eq, Hash, Structural)]
pub struct TextureCompareFunc(u32);

#[allow(non_snake_case)]
impl TextureCompareFunc {
    #[verifier::type_invariant]
    spec fn is_known(self) -> bool {
        Self::names(self.0)
    }

    /// Whether `code` is the number of a value of this type.
    pub open spec fn names(code: u32) -> bool {
        ||| code == codes::LEQUAL
        ||| code == codes::GEQUAL
        ||| code == codes::LESS
        ||| code == codes::GREATER
        ||| code == codes::EQUAL
        ||| code == codes::NOTEQUAL
        ||| code == codes::ALWAYS
        ||| code == codes::NEVER
    }

    /// The number that WebGL2 knows the value by.
    pub closed spec fn code(self) -> u32 {
        self.0
    }

    pub fn LEQUAL() -> (value: Self)
        ensures
            value.code() == codes::LEQUAL,
    {
        TextureCompareFunc(codes::LEQUAL)
    }

    pub fn GEQUAL() -> (value: Self)
        ensures
            value.code() == codes::GEQUAL,
    {
        TextureCompareFunc(codes::GEQUAL)
    }

    pub fn LESS() -> (value: Self)
        ensures
            value.code() == codes::LESS,
    {
        TextureCompareFunc(codes::LESS)
    }

    pub fn GREATER() -> (value: Self)
        ensures
            value.code() == codes::GREATER,
    {
        TextureCompareFunc(codes::GREATER)
    }

    pub fn EQUAL() -> (value: Self)
        ensures
            value.code() == codes::EQUAL,
    {
        TextureCompareFunc(codes::EQUAL)
    }

    pub fn NOTEQUAL() -> (value: Self)
        ensures
            value.code() == codes::NOTEQUAL,
    {
        TextureCompareFunc(codes::NOTEQUAL)
    }

    pub fn ALWAYS() -> (value: Self)
        ensures
            value.code() == codes::ALWAYS,
    {
        TextureCompareFunc(codes::ALWAYS)
    }

    pub fn NEVER() -> (value: Self)
        ensures
            value.code() == codes::NEVER,
    {
        TextureCompareFunc(codes::NEVER)
    }
}

impl From<TextureCompareFunc> for u32 {
    fn from(value: TextureCompareFunc) -> (code: u32) {
        value.0
    }
}

impl FromSpecImpl<TextureCompareFunc> for u32 {
    open spec fn obeys_from_spec() -> bool {
        true
    }

    open spec fn from_spec(value: TextureCompareFunc) -> u32 {
        value.code()
    }
}

/// How the texels of a texture are stored.
#[derive(Clone, Copy, Debug, PartialEq, Eq, Hash, Structural)]
pub struct TextureInternalFormat(u32);

#[allow(non_snake_case)]
impl TextureInternalFormat {
    #[verifier::type_invariant]
    spec fn is_known(self) -> bool {
        Self::names(self.0)
    }

    /// Whether `code` is the number of a value of this type.
    pub open spec fn names(code: u32) -> bool {
        ||| code == codes::R8
        ||| code == codes::R8_SNORM
        ||| code == codes::RG8
        ||| code == codes::RG8_SNORM
        ||| code == codes::RGB8
        ||| code == codes::RGB8_SNORM
        ||| code == codes::RGB565
        ||| code == codes::RGBA4
        ||| code == codes::RGB5_A1
        ||| code == codes::RGBA8
        ||| code == codes::RGBA8_SNORM
        ||| code == codes::RGB10_A2
        ||| code == codes::RGB10_A2UI
        ||| code == codes::SRGB8
        ||| code == codes::SRGB8_ALPHA8
        ||| code == codes::R16F
        ||| code == codes::RG16F
        ||| code == codes::RGB16F
        ||| code == codes::RGBA16F
        ||| code == codes::R32F
        ||| code == codes::RG32F
        ||| code == codes::RGB32F
        ||| code == codes::RGBA32F
        ||| code == codes::R11F_G11F_B10F
        ||| code == codes::RGB9_E5
        ||| code == codes::R8I
        ||| code == codes::R8UI
        ||| code == codes::R16I
        ||| code == codes::R16UI
        ||| code == codes::R32I
        ||| code == codes::R32UI
        ||| code == codes::RG8I
        ||| code == codes::RG8UI
        ||| code == codes::RG16I
        ||| code == codes::RG16UI
        ||| code == codes::RG32I
        ||| code == codes::RG32UI
        ||| code == codes::RGB8I
        ||| code == codes::RGB8UI
        ||| code == codes::RGB16I
        ||| code == codes::RGB16UI
        ||| code == codes::RGB32I
        ||| code == codes::RGB32UI
        ||| code == codes::RGBA8I
        ||| code == codes::RGBA8UI
        ||| code == codes::RGBA16I
        ||| code == codes::RGBA16UI
        ||| code == codes::RGBA32I
        ||| code == codes::RGBA32UI
        ||| code == codes::DEPTH_COMPONENT16
        ||| code == codes::DEPTH_COMPONENT24
        ||| code == codes::DEPTH_COMPONENT32F
        ||| code == codes::DEPTH24_STENCIL8
    }

    /// The number that WebGL2 knows the value by.
    pub closed spec fn code(self) -> u32 {
        self.0
    }

    pub fn R8() -> (value: Self)
        ensures
            value.code() == codes::R8,
    {
        TextureInternalFormat(codes::R8)
    }

    pub fn R8_SNORM() -> (value: Self)
        ensures
            value.code() == codes::R8_SNORM,
    {
        TextureInternalFormat(codes::R8_SNORM)
    }

    pub fn RG8() -> (value: Self)
        ensures
            value.code() == codes::RG8,
    {
        TextureInternalFormat(codes::RG8)
    }

    pub fn RG8_SNORM() -> (value: Self)
        ensures
            value.code() == codes::RG8_SNORM,
    {
        TextureInternalFormat(codes::RG8_SNORM)
    }

    pub fn RGB8() -> (value: Self)
        ensures
            value.code() == codes::RGB8,
    {
        TextureInternalFormat(codes::RGB8)
    }

    pub fn RGB8_SNORM() -> (value: Self)
        ensures
            value.code() == codes::RGB8_SNORM,
    {
        TextureInternalFormat(codes::RGB8_SNORM)
    }

    pub fn RGB565() -> (value: Self)
        ensures
            value.code() == codes::RGB565,
    {
        TextureInternalFormat(codes::RGB565)
    }

    pub fn RGBA4() -> (value: Self)
        ensures
            value.code() == codes::RGBA4,
    {
        TextureInternalFormat(codes::RGBA4)
    }

    pub fn RGB5_A1() -> (value: Self)
        ensures
            value.code() == codes::RGB5_A1,
    {
        TextureInternalFormat(codes::RGB5_A1)
    }

    pub fn RGBA8() -> (value: Self)
        ensures
            value.code() == codes::RGBA8,
    {
        TextureInternalFormat(codes::RGBA8)
    }

    pub fn RGBA8_SNORM() -> (value: Self)
        ensures
            value.code() == codes::RGBA8_SNORM,
    {
        TextureInternalFormat(codes::RGBA8_SNORM)
    }

    pub fn RGB10_A2() -> (value: Self)
        ensures
            value.code() == codes::RGB10_A2,
    {
        TextureInternalFormat(codes::RGB10_A2)
    }

    pub fn RGB10_A2UI() -> (value: Self)
        ensures
            value.code() == codes::RGB10_A2UI,
    {
        TextureInternalFormat(codes::RGB10_A2UI)
    }

    pub fn SRGB8() -> (value: Self)
        ensures
            value.code() == codes::SRGB8,
    {
        TextureInternalFormat(codes::SRGB8)
    }

    pub fn SRGB8_ALPHA8() -> (value: Self)
        ensures
            value.code() == codes::SRGB8_ALPHA8,
    {
        TextureInternalFormat(codes::SRGB8_ALPHA8)
    }

    pub fn R16F() -> (value: Self)
        ensures
            value.code() == codes::R16F,
    {
        TextureInternalFormat(codes::R16F)
    }

    pub fn RG16F() -> (value: Self)
        ensures
            value.code() == codes::RG16F,
    {
        TextureInternalFormat(codes::RG16F)
    }

    pub fn RGB16F() -> (value: Self)
        ensures
            value.code() == codes::RGB16F,
    {
        TextureInternalFormat(codes::RGB16F)
    }

    pub fn RGBA16F() -> (value: Self)
        ensures
            value.code() == codes::RGBA16F,
    {
        TextureInternalFormat(codes::RGBA16F)
    }

    pub fn R32F() -> (value: Self)
        ensures
            value.code() == codes::R32F,
    {
        TextureInternalFormat(codes::R32F)
    }

    pub fn RG32F() -> (value: Self)
        ensures
            value.code() == codes::RG32F,
    {
        TextureInternalFormat(codes::RG32F)
    }

    pub fn RGB32F() -> (value: Self)
        ensures
            value.code() == codes::RGB32F,
    {
        TextureInternalFormat(codes::RGB32F)
    }

    pub fn RGBA32F() -> (value: Self)
        ensures
            value.code() == codes::RGBA32F,
    {
        TextureInternalFormat(codes::RGBA32F)
    }

    pub fn R11F_G11F_B10F() -> (value: Self)
        ensures
            value.code() == codes::R11F_G11F_B10F,
    {
        TextureInternalFormat(codes::R11F_G11F_B10F)
    }

    pub fn RGB9_E5() -> (value: Self)
        ensures
            value.code() == codes::RGB9_E5,
    {
        TextureInternalFormat(codes::RGB9_E5)
    }

    pub fn R8I() -> (value: Self)
        ensures
            value.code() == codes::R8I,
    {
        TextureInternalFormat(codes::R8I)
    }

    pub fn R8UI() -> (value: Self)
        ensures
            value.code() == codes::R8UI,
    {
        TextureInternalFormat(codes::R8UI)
    }

    pub fn R16I() -> (value: Self)
        ensures
            value.code() == codes::R16I,
    {
        TextureInternalFormat(codes::R16I)
    }

    pub fn R16UI() -> (value: Self)
        ensures
            value.code() == codes::R16UI,
    {
        TextureInternalFormat(codes::R16UI)
    }

    pub fn R32I() -> (value: Self)
        ensures
            value.code() == codes::R32I,
    {
        TextureInternalFormat(codes::R32I)
    }

    pub fn R32UI() -> (value: Self)
        ensures
            value.code() == codes::R32UI,
    {
        TextureInternalFormat(codes::R32UI)
    }

    pub fn RG8I() -> (value: Self)
        ensures
            value.code() == codes::RG8I,
    {
        TextureInternalFormat(codes::RG8I)
    }

    pub fn RG8UI() -> (value: Self)
        ensures
            value.code() == codes::RG8UI,
    {
        TextureInternalFormat(codes::RG8UI)
    }

    pub fn RG16I() -> (value: Self)
        ensures
            value.code() == codes::RG16I,
    {
        TextureInternalFormat(codes::RG16I)
    }

    pub fn RG16UI() -> (value: Self)
        ensures
            value.code() == codes::RG16UI,
    {
        TextureInternalFormat(codes::RG16UI)
    }

    pub fn RG32I() -> (value: Self)
        ensures
            value.code() == codes::RG32I,
    {
        TextureInternalFormat(codes::RG32I)
    }

    pub fn RG32UI() -> (value: Self)
        ensures
            value.code() == codes::RG32UI,
    {
        TextureInternalFormat(codes::RG32UI)
    }

    pub fn RGB8I() -> (value: Self)
        ensures
            value.code() == codes::RGB8I,
    {
        TextureInternalFormat(codes::RGB8I)
    }

    pub fn RGB8UI() -> (value: Self)
        ensures
            value.code() == codes::RGB8UI,
    {
        TextureInternalFormat(codes::RGB8UI)
    }

    pub fn RGB16I() -> (value: Self)
        ensures
            value.code() == codes::RGB16I,
    {
        TextureInternalFormat(codes::RGB16I)
    }

    pub fn RGB16UI() -> (value: Self)
        ensures
            value.code() == codes::RGB16UI,
    {
        TextureInternalFormat(codes::RGB16UI)
    }

    pub fn RGB32I() -> (value: Self)
        ensures
            value.code() == codes::RGB32I,
    {
        TextureInternalFormat(codes::RGB32I)
    }

    pub fn RGB32UI() -> (value: Self)
        ensures
            value.code() == codes::RGB32UI,
    {
        TextureInternalFormat(codes::RGB32UI)
    }

    pub fn RGBA8I() -> (value: Self)
        ensures
            value.code() == codes::RGBA8I,
    {
        TextureInternalFormat(codes::RGBA8I)
    }

    pub fn RGBA8UI() -> (value: Self)
        ensures
            value.code() == codes::RGBA8UI,
    {
        TextureInternalFormat(codes::RGBA8UI)
    }

    pub fn RGBA16I() -> (value: Self)
        ensures
            value.code() == codes::RGBA16I,
    {
        TextureInternalFormat(codes::RGBA16I)
    }

    pub fn RGBA16UI() -> (value: Self)
        ensures
            value.code() == codes::RGBA16UI,
    {
        TextureInternalFormat(codes::RGBA16UI)
    }

    pub fn RGBA32I() -> (value: Self)
        ensures
            value.code() == codes::RGBA32I,
    {
        TextureInternalFormat(codes::RGBA32I)
    }

    pub fn RGBA32UI() -> (value: Self)
        ensures
            value.code() == codes::RGBA32UI,
    {
        TextureInternalFormat(codes::RGBA32UI)
    }

    pub fn DEPTH_COMPONENT16() -> (value: Self)
        ensures
            value.code() == codes::DEPTH_COMPONENT16,
    {
        TextureInternalFormat(codes::DEPTH_COMPONENT16)
    }

    pub fn DEPTH_COMPONENT24() -> (value: Self)
        ensures
            value.code() == codes::DEPTH_COMPONENT24,
    {
        TextureInternalFormat(codes::DEPTH_COMPONENT24)
    }

    pub fn DEPTH_COMPONENT32F() -> (value: Self)
        ensures
            value.code() == codes::DEPTH_COMPONENT32F,
    {
        TextureInternalFormat(codes::DEPTH_COMPONENT32F)
    }

    pub fn DEPTH24_STENCIL8() -> (value: Self)
        ensures
            value.code() == codes::DEPTH24_STENCIL8,
    {
        TextureInternalFormat(codes::DEPTH24_STENCIL8)
    }
}

impl From<TextureInternalFormat> for u32 {
    fn from(value: TextureInternalFormat) -> (code: u32) {
        value.0
    }
}

impl FromSpecImpl<TextureInternalFormat> for u32 {
    open spec fn obeys_from_spec() -> bool {
        true
    }

    open spec fn from_spec(value: TextureInternalFormat) -> u32 {
        value.code()
    }
}

/// How the components of the texels that are handed to a texture are laid out.
#[derive(Clone, Copy, Debug, PartialEq, Eq, Hash, Structural)]
pub struct TextureFormat(u32);

#[allow(non_snake_case)]
impl TextureFormat {
    #[verifier::type_invariant]
    spec fn is_known(self) -> bool {
        Self::names(self.0)
    }

    /// Whether `code` is the number of a value of this type.
    pub open spec fn names(code: u32) -> bool {
        ||| code == codes::RED
        ||| code == codes::RED_INTEGER
        ||| code == codes::RG
        ||| code == codes::RG_INTEGER
        ||| code == codes::RGB
        ||| code == codes::RGB_INTEGER
        ||| code == codes::RGBA
        ||| code == codes::RGBA_INTEGER
        ||| code == codes::DEPTH_COMPONENT
        ||| code == codes::DEPTH_STENCIL
    }

    /// The number that WebGL2 knows the value by.
    pub closed spec fn code(self) -> u32 {
        self.0
    }

    pub fn RED() -> (value: Self)
        ensures
            value.code() == codes::RED,
    {
        TextureFormat(codes::RED)
    }

    pub fn RED_INTEGER() -> (value: Self)
        ensures
            value.code() == codes::RED_INTEGER,
    {
        TextureFormat(codes::RED_INTEGER)
    }

    pub fn RG() -> (value: Self)
        ensures
            value.code() == codes::RG,
    {
        TextureFormat(codes::RG)
    }

    pub fn RG_INTEGER() -> (value: Self)
        ensures
            value.code() == codes::RG_INTEGER,
    {
        TextureFormat(codes::RG_INTEGER)
    }

    pub fn RGB() -> (value: Self)
        ensures
            value.code() == codes::RGB,
    {
        TextureFormat(codes::RGB)
    }

    pub fn RGB_INTEGER() -> (value: Self)
        ensures
            value.code() == codes::RGB_INTEGER,
    {
        TextureFormat(codes::RGB_INTEGER)
    }

    pub fn RGBA() -> (value: Self)
        ensures
            value.code() == codes::RGBA,
    {
        TextureFormat(codes::RGBA)
    }

    pub fn RGBA_INTEGER() -> (value: Self)
        ensures
            value.code() == codes::RGBA_INTEGER,
    {
        TextureFormat(codes::RGBA_INTEGER)
    }

    pub fn DEPTH_COMPONENT() -> (value: Self)
        ensures
            value.code() == codes::DEPTH_COMPONENT,
    {
        TextureFormat(codes::DEPTH_COMPONENT)
    }

    pub fn DEPTH_STENCIL() -> (value: Self)
        ensures
            value.code() == codes::DEPTH_STENCIL,
    {
        TextureFormat(codes::DEPTH_STENCIL)
    }
}

impl From<TextureFormat> for u32 {
    fn from(value: TextureFormat) -> (code: u32) {
        value.0
    }
}

impl FromSpecImpl<TextureFormat> for u32 {
    open spec fn obeys_from_spec() -> bool {
        true
    }

    open spec fn from_spec(value: TextureFormat) -> u32 {
        value.code()
    }
}

/// The type of the components of the texels that are handed to a texture.
#[derive(Clone, Copy, Debug, PartialEq, Eq, Hash, Structural)]
pub struct TextureType(u32);

#[allow(non_snake_case)]
impl TextureType {
    #[verifier::type_invariant]
    spec fn is_known(self) -> bool {
        Self::names(self.0)
    }

    /// Whether `code` is the number of a value of this type.
    pub open spec fn names(code: u32) -> bool {
        ||| code == codes::UNSIGNED_BYTE
        ||| code == codes::HALF_FLOAT
        ||| code == codes::FLOAT
        ||| code == codes::UNSIGNED_SHORT_5_6_5
        ||| code == codes::UNSIGNED_SHORT_5_5_5_1
        ||| code == codes::UNSIGNED_INT_2_10_10_10_REV
        ||| code == codes::UNSIGNED_SHORT_4_4_4_4
        ||| code == codes::UNSIGNED_SHORT
        ||| code == codes::UNSIGNED_INT
        ||| code == codes::UNSIGNED_INT_24_8
    }

    /// The number that WebGL2 knows the value by.
    pub closed spec fn code(self) -> u32 {
        self.0
    }

    pub fn UNSIGNED_BYTE() -> (value: Self)
        ensures
            value.code() == codes::UNSIGNED_BYTE,
    {
        TextureType(codes::UNSIGNED_BYTE)
    }

    pub fn HALF_FLOAT() -> (value: Self)
        ensures
            value.code() == codes::HALF_FLOAT,
    {
        TextureType(codes::HALF_FLOAT)
    }

    pub fn FLOAT() -> (value: Self)
        ensures
            value.code() == codes::FLOAT,
    {
        TextureType(codes::FLOAT)
    }

    pub fn UNSIGNED_SHORT_5_6_5() -> (value: Self)
        ensures
            value.code() == codes::UNSIGNED_SHORT_5_6_5,
    {
        TextureType(codes::UNSIGNED_SHORT_5_6_5)
    }

    pub fn UNSIGNED_SHORT_5_5_5_1() -> (value: Self)
        ensures
            value.code() == codes::UNSIGNED_SHORT_5_5_5_1,
    {
        TextureType(codes::UNSIGNED_SHORT_5_5_5_1)
    }

    pub fn UNSIGNED_INT_2_10_10_10_REV() -> (value: Self)
        ensures
            value.code() == codes::UNSIGNED_INT_2_10_10_10_REV,
    {
        TextureType(codes::UNSIGNED_INT_2_10_10_10_REV)
    }

    pub fn UNSIGNED_SHORT_4_4_4_4() -> (value: Self)
        ensures
            value.code() == codes::UNSIGNED_SHORT_4_4_4_4,
    {
        TextureType(codes::UNSIGNED_SHORT_4_4_4_4)
    }

    pub fn UNSIGNED_SHORT() -> (value: Self)
        ensures
            value.code() == codes::UNSIGNED_SHORT,
    {
        TextureType(codes::UNSIGNED_SHORT)
    }

    pub fn UNSIGNED_INT() -> (value: Self)
        ensures
            value.code() == codes::UNSIGNED_INT,
    {
        TextureType(codes::UNSIGNED_INT)
    }

    pub fn UNSIGNED_INT_24_8() -> (value: Self)
        ensures
            value.code() == codes::UNSIGNED_INT_24_8,
    {
        TextureType(codes::UNSIGNED_INT_24_8)
    }
}

impl From<TextureType> for u32 {
    fn from(value: TextureType) -> (code: u32) {
        value.0
    }
}

impl FromSpecImpl<TextureType> for u32 {
    open spec fn obeys_from_spec() -> bool {
        true
    }

    open spec fn from_spec(value: TextureType) -> u32 {
        value.code()
    }
}

impl TextureInternalFormat {
    /// The number of the layout in which texels are handed to a texture of
    /// this format; none for a format that takes no texels from the program.
    pub open spec fn format_code(self) -> Option<u32> {
        if self.code() == codes::R8 || self.code() == codes::R16F || self.code() == codes::R32F {
            Some(codes::RED)
        } else if self.code() == codes::R8UI {
            Some(codes::RED_INTEGER)
        } else if self.code() == codes::RG8 || self.code() == codes::RG16F
            || self.code() == codes::RG32F {
            Some(codes::RG)
        } else if self.code() == codes::RG8UI {
            Some(codes::RG_INTEGER)
        } else if self.code() == codes::RGB8 || self.code() == codes::SRGB8
            || self.code() == codes::RGB565 || self.code() == codes::R11F_G11F_B10F
            || self.code() == codes::RGB9_E5 || self.code() == codes::RGB16F
            || self.code() == codes::RGB32F {
            Some(codes::RGB)
        } else if self.code() == codes::RGB8UI {
            Some(codes::RGB_INTEGER)
        } else if self.code() == codes::RGBA8 || self.code() == codes::SRGB8_ALPHA8
            || self.code() == codes::RGB5_A1 || self.code() == codes::RGB10_A2
            || self.code() == codes::RGBA4 || self.code() == codes::RGBA16F
            || self.code() == codes::RGBA32F {
            Some(codes::RGBA)
        } else if self.code() == codes::RGBA8UI {
            Some(codes::RGBA_INTEGER)
        } else if self.code() == codes::DEPTH_COMPONENT16
            || self.code() == codes::DEPTH_COMPONENT24
            || self.code() == codes::DEPTH_COMPONENT32F {
            Some(codes::DEPTH_COMPONENT)
        } else if self.code() == codes::DEPTH24_STENCIL8 {
            Some(codes::DEPTH_STENCIL)
        } else {
            None
        }
    }

    /// The number of the component type in which texels are handed to a
    /// texture of this format; none for a format that takes no texels from the
    /// program.
    pub open spec fn type_code(self) -> Option<u32> {
        if self.code() == codes::R8 || self.code() == codes::R8UI || self.code() == codes::RG8
            || self.code() == codes::RG8UI || self.code() == codes::RGB8
            || self.code() == codes::SRGB8 || self.code() == codes::RGB8UI
            || self.code() == codes::RGBA8 || self.code() == codes::SRGB8_ALPHA8
            || self.code() == codes::RGBA8UI {
            Some(codes::UNSIGNED_BYTE)
        } else if self.code() == codes::R16F || self.code() == codes::RG16F
            || self.code() == codes::R11F_G11F_B10F || self.code() == codes::RGB9_E5
            || self.code() == codes::RGB16F || self.code() == codes::RGBA16F {
            Some(codes::HALF_FLOAT)
        } else if self.code() == codes::R32F || self.code() == codes::RG32F
            || self.code() == codes::RGB32F || self.code() == codes::RGBA32F
            || self.code() == codes::DEPTH_COMPONENT32F {
            Some(codes::FLOAT)
        } else if self.code() == codes::RGB565 {
            Some(codes::UNSIGNED_SHORT_5_6_5)
        } else if self.code() == codes::RGB5_A1 {
            Some(codes::UNSIGNED_SHORT_5_5_5_1)
        } else if self.code() == codes::RGB10_A2 {
            Some(codes::UNSIGNED_INT_2_10_10_10_REV)
        } else if self.code() == codes::RGBA4 {
            Some(codes::UNSIGNED_SHORT_4_4_4_4)
        } else if self.code() == codes::DEPTH_COMPONENT16 {
            Some(codes::UNSIGNED_SHORT)
        } else if self.code() == codes::DEPTH_COMPONENT24 {
            Some(codes::UNSIGNED_INT)
        } else if self.code() == codes::DEPTH24_STENCIL8 {
            Some(codes::UNSIGNED_INT_24_8)
        } else {
            None
        }
    }

    /// The layout in which texels are handed to a texture of this format.
    pub fn texture_format(self) -> (found: Option<TextureFormat>)
        ensures
            match found {
                Some(value) => self.format_code() == Some(value.code()),
                None => self.format_code() is None,
            },
    {
        let code: u32 = self.0;
        if code == codes::R8 || code == codes::R16F || code == codes::R32F {
            Some(TextureFormat(codes::RED))
        } else if code == codes::R8UI {
            Some(TextureFormat(codes::RED_INTEGER))
        } else if code == codes::RG8 || code == codes::RG16F || code == codes::RG32F {
            Some(TextureFormat(codes::RG))
        } else if code == codes::RG8UI {
            Some(TextureFormat(codes::RG_INTEGER))
        } else if code == codes::RGB8 || code == codes::SRGB8 || code == codes::RGB565
            || code == codes::R11F_G11F_B10F || code == codes::RGB9_E5 || code == codes::RGB16F
            || code == codes::RGB32F {
            Some(TextureFormat(codes::RGB))
        } else if code == codes::RGB8UI {
            Some(TextureFormat(codes::RGB_INTEGER))
        } else if code == codes::RGBA8 || code == codes::SRGB8_ALPHA8 || code == codes::RGB5_A1
            || code == codes::RGB10_A2 || code == codes::RGBA4 || code == codes::RGBA16F
            || code == codes::RGBA32F {
            Some(TextureFormat(codes::RGBA))
        } else if code == codes::RGBA8UI {
            Some(TextureFormat(codes::RGBA_INTEGER))
        } else if code == codes::DEPTH_COMPONENT16 || code == codes::DEPTH_COMPONENT24
            || code == codes::DEPTH_COMPONENT32F {
            Some(TextureFormat(codes::DEPTH_COMPONENT))
        } else if code == codes::DEPTH24_STENCIL8 {
            Some(TextureFormat(codes::DEPTH_STENCIL))
        } else {
            None
        }
    }

    /// The component type in which texels are handed to a texture of this
    /// format.
    pub fn texture_type(self) -> (found: Option<TextureType>)
        ensures
            match found {
                Some(value) => self.type_code() == Some(value.code()),
                None => self.type_code() is None,
            },
    {
        let code: u32 = self.0;
        if code == codes::R8 || code == codes::R8UI || code == codes::RG8
            || code == codes::RG8UI || code == codes::RGB8 || code == codes::SRGB8
            || code == codes::RGB8UI || code == codes::RGBA8 || code == codes::SRGB8_ALPHA8
            || code == codes::RGBA8UI {
            Some(TextureType(codes::UNSIGNED_BYTE))
        } else if code == codes::R16F || code == codes::RG16F || code == codes::R11F_G11F_B10F
            || code == codes::RGB9_E5 || code == codes::RGB16F || code == codes::RGBA16F {
            Some(TextureType(codes::HALF_FLOAT))
        } else if code == codes::R32F || code == codes::RG32F || code == codes::RGB32F
            || code == codes::RGBA32F || code == codes::DEPTH_COMPONENT32F {
            Some(TextureType(codes::FLOAT))
        } else if code == codes::RGB565 {
            Some(TextureType(codes::UNSIGNED_SHORT_5_6_5))
        } else if code == codes::RGB5_A1 {
            Some(TextureType(codes::UNSIGNED_SHORT_5_5_5_1))
        } else if code == codes::RGB10_A2 {
            Some(TextureType(codes::UNSIGNED_INT_2_10_10_10_REV))
        } else if code == codes::RGBA4 {
            Some(TextureType(codes::UNSIGNED_SHORT_4_4_4_4))
        } else if code == codes::DEPTH_COMPONENT16 {
            Some(TextureType(codes::UNSIGNED_SHORT))
        } else if code == codes::DEPTH_COMPONENT24 {
            Some(TextureType(codes::UNSIGNED_INT))
        } else if code == codes::DEPTH24_STENCIL8 {
            Some(TextureType(codes::UNSIGNED_INT_24_8))
        } else {
            None
        }
    }
}

} // verus!
