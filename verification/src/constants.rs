//! The enumerated values of WebGL2, each kind as a type of its own. A value of
//! such a type always holds one of the numbers that the type names.

use vstd::prelude::*;
use vstd::std_specs::convert::FromSpecImpl;

use crate::codes;

verus! {

/// How the source and the destination colour are combined when blending.
#[derive(Clone, Copy, Debug, PartialEq, Eq, Hash, Structural)]
pub struct BlendEquation(u32);

#[allow(non_snake_case)]
impl BlendEquation {
    #[verifier::type_invariant]
    spec fn is_known(self) -> bool {
        Self::names(self.0)
    }

    /// Whether `code` is the number of a value of this type.
    pub open spec fn names(code: u32) -> bool {
        ||| code == codes::FUNC_ADD
        ||| code == codes::FUNC_SUBTRACT
        ||| code == codes::FUNC_REVERSE_SUBTRACT
        ||| code == codes::MIN
        ||| code == codes::MAX
    }

    /// The number that WebGL2 knows the value by.
    pub closed spec fn code(self) -> u32 {
        self.0
    }

    pub fn FUNC_ADD() -> (value: Self)
        ensures
            value.code() == codes::FUNC_ADD,
    {
        BlendEquation(codes::FUNC_ADD)
    }

    pub fn FUNC_SUBTRACT() -> (value: Self)
        ensures
            value.code() == codes::FUNC_SUBTRACT,
    {
        BlendEquation(codes::FUNC_SUBTRACT)
    }

    pub fn FUNC_REVERSE_SUBTRACT() -> (value: Self)
        ensures
            value.code() == codes::FUNC_REVERSE_SUBTRACT,
    {
        BlendEquation(codes::FUNC_REVERSE_SUBTRACT)
    }

    pub fn MIN() -> (value: Self)
        ensures
            value.code() == codes::MIN,
    {
        BlendEquation(codes::MIN)
    }

    pub fn MAX() -> (value: Self)
        ensures
            value.code() == codes::MAX,
    {
        BlendEquation(codes::MAX)
    }
}

impl From<BlendEquation> for u32 {
    fn from(value: BlendEquation) -> (code: u32) {
        value.0
    }
}

impl FromSpecImpl<BlendEquation> for u32 {
    open spec fn obeys_from_spec() -> bool {
        true
    }

    open spec fn from_spec(value: BlendEquation) -> u32 {
        value.code()
    }
}

/// A factor by which a colour is multiplied before it is blended.
#[derive(Clone, Copy, Debug, PartialEq, Eq, Hash, Structural)]
pub struct BlendFuncFactor(u32);

#[allow(non_snake_case)]
impl BlendFuncFactor {
    #[verifier::type_invariant]
    spec fn is_known(self) -> bool {
        Self::names(self.0)
    }

    /// Whether `code` is the number of a value of this type.
    pub open spec fn names(code: u32) -> bool {
        ||| code == codes::ZERO
        ||| code == codes::ONE
        ||| code == codes::SRC_COLOR
        ||| code == codes::ONE_MINUS_SRC_COLOR
        ||| code == codes::DST_COLOR
        ||| code == codes::ONE_MINUS_DST_COLOR
        ||| code == codes::SRC_ALPHA
        ||| code == codes::ONE_MINUS_SRC_ALPHA
        ||| code == codes::DST_ALPHA
        ||| code == codes::ONE_MINUS_DST_ALPHA
        ||| code == codes::CONSTANT_COLOR
        ||| code == codes::ONE_MINUS_CONSTANT_COLOR
        ||| code == codes::CONSTANT_ALPHA
        ||| code == codes::ONE_MINUS_CONSTANT_ALPHA
        ||| code == codes::SRC_ALPHA_SATURATE
    }

    /// The number that WebGL2 knows the value by.
    pub closed spec fn code(self) -> u32 {
        self.0
    }

    pub fn ZERO() -> (value: Self)
        ensures
            value.code() == codes::ZERO,
    {
        BlendFuncFactor(codes::ZERO)
    }

    pub fn ONE() -> (value: Self)
        ensures
            value.code() == codes::ONE,
    {
        BlendFuncFactor(codes::ONE)
    }

    pub fn SRC_COLOR() -> (value: Self)
        ensures
            value.code() == codes::SRC_COLOR,
    {
        BlendFuncFactor(codes::SRC_COLOR)
    }

    pub fn ONE_MINUS_SRC_COLOR() -> (value: Self)
        ensures
            value.code() == codes::ONE_MINUS_SRC_COLOR,
    {
        BlendFuncFactor(codes::ONE_MINUS_SRC_COLOR)
    }

    pub fn DST_COLOR() -> (value: Self)
        ensures
            value.code() == codes::DST_COLOR,
    {
        BlendFuncFactor(codes::DST_COLOR)
    }

    pub fn ONE_MINUS_DST_COLOR() -> (value: Self)
        ensures
            value.code() == codes::ONE_MINUS_DST_COLOR,
    {
        BlendFuncFactor(codes::ONE_MINUS_DST_COLOR)
    }

    pub fn SRC_ALPHA() -> (value: Self)
        ensures
            value.code() == codes::SRC_ALPHA,
    {
        BlendFuncFactor(codes::SRC_ALPHA)
    }

    pub fn ONE_MINUS_SRC_ALPHA() -> (value: Self)
        ensures
            value.code() == codes::ONE_MINUS_SRC_ALPHA,
    {
        BlendFuncFactor(codes::ONE_MINUS_SRC_ALPHA)
    }

    pub fn DST_ALPHA() -> (value: Self)
        ensures
            value.code() == codes::DST_ALPHA,
    {
        BlendFuncFactor(codes::DST_ALPHA)
    }

    pub fn ONE_MINUS_DST_ALPHA() -> (value: Self)
        ensures
            value.code() == codes::ONE_MINUS_DST_ALPHA,
    {
        BlendFuncFactor(codes::ONE_MINUS_DST_ALPHA)
    }

    pub fn CONSTANT_COLOR() -> (value: Self)
        ensures
            value.code() == codes::CONSTANT_COLOR,
    {
        BlendFuncFactor(codes::CONSTANT_COLOR)
    }

    pub fn ONE_MINUS_CONSTANT_COLOR() -> (value: Self)
        ensures
            value.code() == codes::ONE_MINUS_CONSTANT_COLOR,
    {
        BlendFuncFactor(codes::ONE_MINUS_CONSTANT_COLOR)
    }

    pub fn CONSTANT_ALPHA() -> (value: Self)
        ensures
            value.code() == codes::CONSTANT_ALPHA,
    {
        BlendFuncFactor(codes::CONSTANT_ALPHA)
    }

    pub fn ONE_MINUS_CONSTANT_ALPHA() -> (value: Self)
        ensures
            value.code() == codes::ONE_MINUS_CONSTANT_ALPHA,
    {
        BlendFuncFactor(codes::ONE_MINUS_CONSTANT_ALPHA)
    }

    pub fn SRC_ALPHA_SATURATE() -> (value: Self)
        ensures
            value.code() == codes::SRC_ALPHA_SATURATE,
    {
        BlendFuncFactor(codes::SRC_ALPHA_SATURATE)
    }
}

impl From<BlendFuncFactor> for u32 {
    fn from(value: BlendFuncFactor) -> (code: u32) {
        value.0
    }
}

impl FromSpecImpl<BlendFuncFactor> for u32 {
    open spec fn obeys_from_spec() -> bool {
        true
    }

    open spec fn from_spec(value: BlendFuncFactor) -> u32 {
        value.code()
    }
}

/// The comparison that the stencil test makes.
#[derive(Clone, Copy, Debug, PartialEq, Eq, Hash, Structural)]
pub struct StencilFunc(u32);

#[allow(non_snake_case)]
impl StencilFunc {
    #[verifier::type_invariant]
    spec fn is_known(self) -> bool {
        Self::names(self.0)
    }

    /// Whether `code` is the number of a value of this type.
    pub open spec fn names(code: u32) -> bool {
        ||| code == codes::NEVER
        ||| code == codes::LESS
        ||| code == codes::EQUAL
        ||| code == codes::LEQUAL
        ||| code == codes::GREATER
        ||| code == codes::NOTEQUAL
        ||| code == codes::GEQUAL
        ||| code == codes::ALWAYS
    }

    /// The number that WebGL2 knows the value by.
    pub closed spec fn code(self) -> u32 {
        self.0
    }

    pub fn NEVER() -> (value: Self)
        ensures
            value.code() == codes::NEVER,
    {
        StencilFunc(codes::NEVER)
    }

    pub fn LESS() -> (value: Self)
        ensures
            value.code() == codes::LESS,
    {
        StencilFunc(codes::LESS)
    }

    pub fn EQUAL() -> (value: Self)
        ensures
            value.code() == codes::EQUAL,
    {
        StencilFunc(codes::EQUAL)
    }

    pub fn LEQUAL() -> (value: Self)
        ensures
            value.code() == codes::LEQUAL,
    {
        StencilFunc(codes::LEQUAL)
    }

    pub fn GREATER() -> (value: Self)
        ensures
            value.code() == codes::GREATER,
    {
        StencilFunc(codes::GREATER)
    }

    pub fn NOTEQUAL() -> (value: Self)
        ensures
            value.code() == codes::NOTEQUAL,
    {
        StencilFunc(codes::NOTEQUAL)
    }

    pub fn GEQUAL() -> (value: Self)
        ensures
            value.code() == codes::GEQUAL,
    {
        StencilFunc(codes::GEQUAL)
    }

    pub fn ALWAYS() -> (value: Self)
        ensures
            value.code() == codes::ALWAYS,
    {
        StencilFunc(codes::ALWAYS)
    }
}

impl From<StencilFunc> for u32 {
    fn from(value: StencilFunc) -> (code: u32) {
        value.0
    }
}

impl FromSpecImpl<StencilFunc> for u32 {
    open spec fn obeys_from_spec() -> bool {
        true
    }

    open spec fn from_spec(value: StencilFunc) -> u32 {
        value.code()
    }
}

/// What becomes of a stencil value once the tests are made.
#[derive(Clone, Copy, Debug, PartialEq, Eq, Hash, Structural)]
pub struct StencilOp(u32);

#[allow(non_snake_case)]
impl StencilOp {
    #[verifier::type_invariant]
    spec fn is_known(self) -> bool {
        Self::names(self.0)
    }

    /// Whether `code` is the number of a value of this type.
    pub open spec fn names(code: u32) -> bool {
        ||| code == codes::KEEP
        ||| code == codes::ZERO
        ||| code == codes::REPLACE
        ||| code == codes::INCR
        ||| code == codes::INCR_WRAP
        ||| code == codes::DECR
        ||| code == codes::DECR_WRAP
        ||| code == codes::INVERT
    }

    /// The number that WebGL2 knows the value by.
    pub closed spec fn code(self) -> u32 {
        self.0
    }

    pub fn KEEP() -> (value: Self)
        ensures
            value.code() == codes::KEEP,
    {
        StencilOp(codes::KEEP)
    }

    pub fn ZERO() -> (value: Self)
        ensures
            value.code() == codes::ZERO,
    {
        StencilOp(codes::ZERO)
    }

    pub fn REPLACE() -> (value: Self)
        ensures
            value.code() == codes::REPLACE,
    {
        StencilOp(codes::REPLACE)
    }

    pub fn INCR() -> (value: Self)
        ensures
            value.code() == codes::INCR,
    {
        StencilOp(codes::INCR)
    }

    pub fn INCR_WRAP() -> (value: Self)
        ensures
            value.code() == codes::INCR_WRAP,
    {
        StencilOp(codes::INCR_WRAP)
    }

    pub fn DECR() -> (value: Self)
        ensures
            value.code() == codes::DECR,
    {
        StencilOp(codes::DECR)
    }

    pub fn DECR_WRAP() -> (value: Self)
        ensures
            value.code() == codes::DECR_WRAP,
    {
        StencilOp(codes::DECR_WRAP)
    }

    pub fn INVERT() -> (value: Self)
        ensures
            value.code() == codes::INVERT,
    {
        StencilOp(codes::INVERT)
    }
}

impl From<StencilOp> for u32 {
    fn from(value: StencilOp) -> (code: u32) {
        value.0
    }
}

impl FromSpecImpl<StencilOp> for u32 {
    open spec fn obeys_from_spec() -> bool {
        true
    }

    open spec fn from_spec(value: StencilOp) -> u32 {
        value.code()
    }
}

/// The kind of a shader object.
#[derive(Clone, Copy, Debug, PartialEq, Eq, Hash, Structural)]
pub struct ShaderType(u32);

#[allow(non_snake_case)]
impl ShaderType {
    #[verifier::type_invariant]
    spec fn is_known(self) -> bool {
        Self::names(self.0)
    }

    /// Whether `code` is the number of a value of this type.
    pub open spec fn names(code: u32) -> bool {
        ||| code == codes::VERTEX_SHADER
        ||| code == codes::FRAGMENT_SHADER
        ||| code == codes::FRAGMENT_SHADER_DERIVATIVE_HINT
    }

    /// The number that WebGL2 knows the value by.
    pub closed spec fn code(self) -> u32 {
        self.0
    }

    pub fn VERTEX_SHADER() -> (value: Self)
        ensures
            value.code() == codes::VERTEX_SHADER,
    {
        ShaderType(codes::VERTEX_SHADER)
    }

    pub fn FRAGMENT_SHADER() -> (value: Self)
        ensures
            value.code() == codes::FRAGMENT_SHADER,
    {
        ShaderType(codes::FRAGMENT_SHADER)
    }

    pub fn FRAGMENT_SHADER_DERIVATIVE_HINT() -> (value: Self)
        ensures
            value.code() == codes::FRAGMENT_SHADER_DERIVATIVE_HINT,
    {
        ShaderType(codes::FRAGMENT_SHADER_DERIVATIVE_HINT)
    }
}

impl From<ShaderType> for u32 {
    fn from(value: ShaderType) -> (code: u32) {
        value.0
    }
}

impl FromSpecImpl<ShaderType> for u32 {
    open spec fn obeys_from_spec() -> bool {
        true
    }

    open spec fn from_spec(value: ShaderType) -> u32 {
        value.code()
    }
}

/// A capability of the context that is switched on or off.
#[derive(Clone, Copy, Debug, PartialEq, Eq, Hash, Structural)]
pub struct WebGlCapability(u32);

#[allow(non_snake_case)]
impl WebGlCapability {
    #[verifier::type_invariant]
    spec fn is_known(self) -> bool {
        Self::names(self.0)
    }

    /// Whether `code` is the number of a value of this type.
    pub open spec fn names(code: u32) -> bool {
        ||| code == codes::BLEND
        ||| code == codes::CULL_FACE
        ||| code == codes::DEPTH_TEST
        ||| code == codes::DITHER
        ||| code == codes::POLYGON_OFFSET_FILL
        ||| code == codes::SAMPLE_ALPHA_TO_COVERAGE
        ||| code == codes::SAMPLE_COVERAGE
        ||| code == codes::SCISSOR_TEST
        ||| code == codes::STENCIL_TEST
        ||| code == codes::RASTERIZER_DISCARD
    }

    /// The number that WebGL2 knows the value by.
    pub closed spec fn code(self) -> u32 {
        self.0
    }

    pub fn BLEND() -> (value: Self)
        ensures
            value.code() == codes::BLEND,
    {
        WebGlCapability(codes::BLEND)
    }

    pub fn CULL_FACE() -> (value: Self)
        ensures
            value.code() == codes::CULL_FACE,
    {
        WebGlCapability(codes::CULL_FACE)
    }

    pub fn DEPTH_TEST() -> (value: Self)
        ensures
            value.code() == codes::DEPTH_TEST,
    {
        WebGlCapability(codes::DEPTH_TEST)
    }

    pub fn DITHER() -> (value: Self)
        ensures
            value.code() == codes::DITHER,
    {
        WebGlCapability(codes::DITHER)
    }

    pub fn POLYGON_OFFSET_FILL() -> (value: Self)
        ensures
            value.code() == codes::POLYGON_OFFSET_FILL,
    {
        WebGlCapability(codes::POLYGON_OFFSET_FILL)
    }

    pub fn SAMPLE_ALPHA_TO_COVERAGE() -> (value: Self)
        ensures
            value.code() == codes::SAMPLE_ALPHA_TO_COVERAGE,
    {
        WebGlCapability(codes::SAMPLE_ALPHA_TO_COVERAGE)
    }

    pub fn SAMPLE_COVERAGE() -> (value: Self)
        ensures
            value.code() == codes::SAMPLE_COVERAGE,
    {
        WebGlCapability(codes::SAMPLE_COVERAGE)
    }

    pub fn SCISSOR_TEST() -> (value: Self)
        ensures
            value.code() == codes::SCISSOR_TEST,
    {
        WebGlCapability(codes::SCISSOR_TEST)
    }

    pub fn STENCIL_TEST() -> (value: Self)
        ensures
            value.code() == codes::STENCIL_TEST,
    {
        WebGlCapability(codes::STENCIL_TEST)
    }

    pub fn RASTERIZER_DISCARD() -> (value: Self)
        ensures
            value.code() == codes::RASTERIZER_DISCARD,
    {
        WebGlCapability(codes::RASTERIZER_DISCARD)
    }
}

impl From<WebGlCapability> for u32 {
    fn from(value: WebGlCapability) -> (code: u32) {
        value.0
    }
}

impl FromSpecImpl<WebGlCapability> for u32 {
    open spec fn obeys_from_spec() -> bool {
        true
    }

    open spec fn from_spec(value: WebGlCapability) -> u32 {
        value.code()
    }
}

/// A target that a buffer is bound to.
#[derive(Clone, Copy, Debug, PartialEq, Eq, Hash, Structural)]
pub struct BindingPoint(u32);

#[allow(non_snake_case)]
impl BindingPoint {
    #[verifier::type_invariant]
    spec fn is_known(self) -> bool {
        Self::names(self.0)
    }

    /// Whether `code` is the number of a value of this type.
    pub open spec fn names(code: u32) -> bool {
        ||| code == codes::ARRAY_BUFFER
        ||| code == codes::ELEMENT_ARRAY_BUFFER
        ||| code == codes::COPY_READ_BUFFER
        ||| code == codes::COPY_WRITE_BUFFER
        ||| code == codes::TRANSFORM_FEEDBACK_BUFFER
        ||| code == codes::UNIFORM_BUFFER
        ||| code == codes::PIXEL_PACK_BUFFER
        ||| code == codes::PIXEL_UNPACK_BUFFER
    }

    /// The number that WebGL2 knows the value by.
    pub closed spec fn code(self) -> u32 {
        self.0
    }

    pub fn ARRAY_BUFFER() -> (value: Self)
        ensures
            value.code() == codes::ARRAY_BUFFER,
    {
        BindingPoint(codes::ARRAY_BUFFER)
    }

    pub fn ELEMENT_ARRAY_BUFFER() -> (value: Self)
        ensures
            value.code() == codes::ELEMENT_ARRAY_BUFFER,
    {
        BindingPoint(codes::ELEMENT_ARRAY_BUFFER)
    }

    /// Another name of `ELEMENT_ARRAY_BUFFER`.
    pub fn INDEX_BUFFER() -> (value: Self)
        ensures
            value.code() == codes::ELEMENT_ARRAY_BUFFER,
    {
        BindingPoint(codes::ELEMENT_ARRAY_BUFFER)
    }

    pub fn COPY_READ_BUFFER() -> (value: Self)
        ensures
            value.code() == codes::COPY_READ_BUFFER,
    {
        BindingPoint(codes::COPY_READ_BUFFER)
    }

    pub fn COPY_WRITE_BUFFER() -> (value: Self)
        ensures
            value.code() == codes::COPY_WRITE_BUFFER,
    {
        BindingPoint(codes::COPY_WRITE_BUFFER)
    }

    pub fn TRANSFORM_FEEDBACK_BUFFER() -> (value: Self)
        ensures
            value.code() == codes::TRANSFORM_FEEDBACK_BUFFER,
    {
        BindingPoint(codes::TRANSFORM_FEEDBACK_BUFFER)
    }

    pub fn UNIFORM_BUFFER() -> (value: Self)
        ensures
            value.code() == codes::UNIFORM_BUFFER,
    {
        BindingPoint(codes::UNIFORM_BUFFER)
    }

    pub fn PIXEL_PACK_BUFFER() -> (value: Self)
        ensures
            value.code() == codes::PIXEL_PACK_BUFFER,
    {
        BindingPoint(codes::PIXEL_PACK_BUFFER)
    }

    pub fn PIXEL_UNPACK_BUFFER() -> (value: Self)
        ensures
            value.code() == codes::PIXEL_UNPACK_BUFFER,
    {
        BindingPoint(codes::PIXEL_UNPACK_BUFFER)
    }
}

impl From<BindingPoint> for u32 {
    fn from(value: BindingPoint) -> (code: u32) {
        value.0
    }
}

impl FromSpecImpl<BindingPoint> for u32 {
    open spec fn obeys_from_spec() -> bool {
        true
    }

    open spec fn from_spec(value: BindingPoint) -> u32 {
        value.code()
    }
}

/// What the data store of a buffer is expected to be used for.
#[derive(Clone, Copy, Debug, PartialEq, Eq, Hash, Structural)]
pub struct BufferUsage(u32);

#[allow(non_snake_case)]
impl BufferUsage {
    #[verifier::type_invariant]
    spec fn is_known(self) -> bool {
        Self::names(self.0)
    }

    /// Whether `code` is the number of a value of this type.
    pub open spec fn names(code: u32) -> bool {
        ||| code == codes::STATIC_DRAW
        ||| code == codes::DYNAMIC_DRAW
        ||| code == codes::STREAM_DRAW
        ||| code == codes::STATIC_READ
        ||| code == codes::DYNAMIC_READ
        ||| code == codes::STREAM_READ
        ||| code == codes::STATIC_COPY
        ||| code == codes::DYNAMIC_COPY
        ||| code == codes::STREAM_COPY
    }

    /// The number that WebGL2 knows the value by.
    pub closed spec fn code(self) -> u32 {
        self.0
    }

    pub fn STATIC_DRAW() -> (value: Self)
        ensures
            value.code() == codes::STATIC_DRAW,
    {
        BufferUsage(codes::STATIC_DRAW)
    }

    pub fn DYNAMIC_DRAW() -> (value: Self)
        ensures
            value.code() == codes::DYNAMIC_DRAW,
    {
        BufferUsage(codes::DYNAMIC_DRAW)
    }

    pub fn STREAM_DRAW() -> (value: Self)
        ensures
            value.code() == codes::STREAM_DRAW,
    {
        BufferUsage(codes::STREAM_DRAW)
    }

    pub fn STATIC_READ() -> (value: Self)
        ensures
            value.code() == codes::STATIC_READ,
    {
        BufferUsage(codes::STATIC_READ)
    }

    pub fn DYNAMIC_READ() -> (value: Self)
        ensures
            value.code() == codes::DYNAMIC_READ,
    {
        BufferUsage(codes::DYNAMIC_READ)
    }

    pub fn STREAM_READ() -> (value: Self)
        ensures
            value.code() == codes::STREAM_READ,
    {
        BufferUsage(codes::STREAM_READ)
    }

    pub fn STATIC_COPY() -> (value: Self)
        ensures
            value.code() == codes::STATIC_COPY,
    {
        BufferUsage(codes::STATIC_COPY)
    }

    pub fn DYNAMIC_COPY() -> (value: Self)
        ensures
            value.code() == codes::DYNAMIC_COPY,
    {
        BufferUsage(codes::DYNAMIC_COPY)
    }

    pub fn STREAM_COPY() -> (value: Self)
        ensures
            value.code() == codes::STREAM_COPY,
    {
        BufferUsage(codes::STREAM_COPY)
    }
}

impl From<BufferUsage> for u32 {
    fn from(value: BufferUsage) -> (code: u32) {
        value.0
    }
}

impl FromSpecImpl<BufferUsage> for u32 {
    open spec fn obeys_from_spec() -> bool {
        true
    }

    open spec fn from_spec(value: BufferUsage) -> u32 {
        value.code()
    }
}

/// The type of the components of a vertex attribute.
#[derive(Clone, Copy, Debug, PartialEq, Eq, Hash, Structural)]
pub struct NumberType(u32);

#[allow(non_snake_case)]
impl NumberType {
    #[verifier::type_invariant]
    spec fn is_known(self) -> bool {
        Self::names(self.0)
    }

    /// Whether `code` is the number of a value of this type.
    pub open spec fn names(code: u32) -> bool {
        ||| code == codes::BYTE
        ||| code == codes::SHORT
        ||| code == codes::UNSIGNED_BYTE
        ||| code == codes::UNSIGNED_SHORT
        ||| code == codes::INT
        ||| code == codes::UNSIGNED_INT
        ||| code == codes::FLOAT
        ||| code == codes::HALF_FLOAT
    }

    /// The number that WebGL2 knows the value by.
    pub closed spec fn code(self) -> u32 {
        self.0
    }

    pub fn BYTE() -> (value: Self)
        ensures
            value.code() == codes::BYTE,
    {
        NumberType(codes::BYTE)
    }

    pub fn SHORT() -> (value: Self)
        ensures
            value.code() == codes::SHORT,
    {
        NumberType(codes::SHORT)
    }

    pub fn UNSIGNED_BYTE() -> (value: Self)
        ensures
            value.code() == codes::UNSIGNED_BYTE,
    {
        NumberType(codes::UNSIGNED_BYTE)
    }

    pub fn UNSIGNED_SHORT() -> (value: Self)
        ensures
            value.code() == codes::UNSIGNED_SHORT,
    {
        NumberType(codes::UNSIGNED_SHORT)
    }

    pub fn INT() -> (value: Self)
        ensures
            value.code() == codes::INT,
    {
        NumberType(codes::INT)
    }

    pub fn UNSIGNED_INT() -> (value: Self)
        ensures
            value.code() == codes::UNSIGNED_INT,
    {
        NumberType(codes::UNSIGNED_INT)
    }

    pub fn FLOAT() -> (value: Self)
        ensures
            value.code() == codes::FLOAT,
    {
        NumberType(codes::FLOAT)
    }

    pub fn HALF_FLOAT() -> (value: Self)
        ensures
            value.code() == codes::HALF_FLOAT,
    {
        NumberType(codes::HALF_FLOAT)
    }

    /// Whether the type is one of the six integer types.
    pub open spec fn is_integer(self) -> bool {
        ||| self.code() == codes::BYTE
        ||| self.code() == codes::SHORT
        ||| self.code() == codes::UNSIGNED_BYTE
        ||| self.code() == codes::UNSIGNED_SHORT
        ||| self.code() == codes::INT
        ||| self.code() == codes::UNSIGNED_INT
    }

    /// Tells the integer types from the two floating point types.
    pub fn is_integer_type(self) -> (integer: bool)
        ensures
            integer == self.is_integer(),
            !integer ==> self.code() == codes::FLOAT || self.code() == codes::HALF_FLOAT,
    {
        proof {
            use_type_invariant(&self);
        }
        self.0 != codes::FLOAT && self.0 != codes::HALF_FLOAT
    }
}

impl From<NumberType> for u32 {
    fn from(value: NumberType) -> (code: u32) {
        value.0
    }
}

impl FromSpecImpl<NumberType> for u32 {
    open spec fn obeys_from_spec() -> bool {
        true
    }

    open spec fn from_spec(value: NumberType) -> u32 {
        value.code()
    }
}

/// A property of a program that can be asked for.
#[derive(Clone, Copy, Debug, PartialEq, Eq, Hash, Structural)]
pub struct ProgramParamerter(u32);

#[allow(non_snake_case)]
impl ProgramParamerter {
    #[verifier::type_invariant]
    spec fn is_known(self) -> bool {
        Self::names(self.0)
    }

    /// Whether `code` is the number of a value of this type.
    pub open spec fn names(code: u32) -> bool {
        ||| code == codes::DELETE_STATUS
        ||| code == codes::LINK_STATUS
        ||| code == codes::VALIDATE_STATUS
        ||| code == codes::ATTACHED_SHADERS
        ||| code == codes::ACTIVE_ATTRIBUTES
        ||| code == codes::ACTIVE_UNIFORMS
        ||| code == codes::TRANSFORM_FEEDBACK_BUFFER_MODE
        ||| code == codes::TRANSFORM_FEEDBACK_VARYINGS
        ||| code == codes::ACTIVE_UNIFORM_BLOCKS
    }

    /// The number that WebGL2 knows the value by.
    pub closed spec fn code(self) -> u32 {
        self.0
    }

    pub fn DELETE_STATUS() -> (value: Self)
        ensures
            value.code() == codes::DELETE_STATUS,
    {
        ProgramParamerter(codes::DELETE_STATUS)
    }

    pub fn LINK_STATUS() -> (value: Self)
        ensures
            value.code() == codes::LINK_STATUS,
    {
        ProgramParamerter(codes::LINK_STATUS)
    }

    pub fn VALIDATE_STATUS() -> (value: Self)
        ensures
            value.code() == codes::VALIDATE_STATUS,
    {
        ProgramParamerter(codes::VALIDATE_STATUS)
    }

    pub fn ATTACHED_SHADERS() -> (value: Self)
        ensures
            value.code() == codes::ATTACHED_SHADERS,
    {
        ProgramParamerter(codes::ATTACHED_SHADERS)
    }

    pub fn ACTIVE_ATTRIBUTES() -> (value: Self)
        ensures
            value.code() == codes::ACTIVE_ATTRIBUTES,
    {
        ProgramParamerter(codes::ACTIVE_ATTRIBUTES)
    }

    pub fn ACTIVE_UNIFORMS() -> (value: Self)
        ensures
            value.code() == codes::ACTIVE_UNIFORMS,
    {
        ProgramParamerter(codes::ACTIVE_UNIFORMS)
    }

    pub fn TRANSFORM_FEEDBACK_BUFFER_MODE() -> (value: Self)
        ensures
            value.code() == codes::TRANSFORM_FEEDBACK_BUFFER_MODE,
    {
        ProgramParamerter(codes::TRANSFORM_FEEDBACK_BUFFER_MODE)
    }

    pub fn TRANSFORM_FEEDBACK_VARYINGS() -> (value: Self)
        ensures
            value.code() == codes::TRANSFORM_FEEDBACK_VARYINGS,
    {
        ProgramParamerter(codes::TRANSFORM_FEEDBACK_VARYINGS)
    }

    pub fn ACTIVE_UNIFORM_BLOCKS() -> (value: Self)
        ensures
            value.code() == codes::ACTIVE_UNIFORM_BLOCKS,
    {
        ProgramParamerter(codes::ACTIVE_UNIFORM_BLOCKS)
    }
}

impl From<ProgramParamerter> for u32 {
    fn from(value: ProgramParamerter) -> (code: u32) {
        value.0
    }
}

impl FromSpecImpl<ProgramParamerter> for u32 {
    open spec fn obeys_from_spec() -> bool {
        true
    }

    open spec fn from_spec(value: ProgramParamerter) -> u32 {
        value.code()
    }
}

/// The comparison that the depth test makes.
#[derive(Clone, Copy, Debug, PartialEq, Eq, Hash, Structural)]
pub struct DepthFunction(u32);

#[allow(non_snake_case)]
impl DepthFunction {
    #[verifier::type_invariant]
    spec fn is_known(self) -> bool {
        Self::names(self.0)
    }

    /// Whether `code` is the number of a value of this type.
    pub open spec fn names(code: u32) -> bool {
        ||| code == codes::NEVER
        ||| code == codes::LESS
        ||| code == codes::EQUAL
        ||| code == codes::LEQUAL
        ||| code == codes::GREATER
        ||| code == codes::NOTEQUAL
        ||| code == codes::GEQUAL
        ||| code == codes::ALWAYS
    }

    /// The number that WebGL2 knows the value by.
    pub closed spec fn code(self) -> u32 {
        self.0
    }

    pub fn NEVER() -> (value: Self)
        ensures
            value.code() == codes::NEVER,
    {
        DepthFunction(codes::NEVER)
    }

    pub fn LESS() -> (value: Self)
        ensures
            value.code() == codes::LESS,
    {
        DepthFunction(codes::LESS)
    }

    pub fn EQUAL() -> (value: Self)
        ensures
            value.code() == codes::EQUAL,
    {
        DepthFunction(codes::EQUAL)
    }

    pub fn LEQUAL() -> (value: Self)
        ensures
            value.code() == codes::LEQUAL,
    {
        DepthFunction(codes::LEQUAL)
    }

    pub fn GREATER() -> (value: Self)
        ensures
            value.code() == codes::GREATER,
    {
        DepthFunction(codes::GREATER)
    }

    pub fn NOTEQUAL() -> (value: Self)
        ensures
            value.code() == codes::NOTEQUAL,
    {
        DepthFunction(codes::NOTEQUAL)
    }

    pub fn GEQUAL() -> (value: Self)
        ensures
            value.code() == codes::GEQUAL,
    {
        DepthFunction(codes::GEQUAL)
    }

    pub fn ALWAYS() -> (value: Self)
        ensures
            value.code() == codes::ALWAYS,
    {
        DepthFunction(codes::ALWAYS)
    }
}

impl From<DepthFunction> for u32 {
    fn from(value: DepthFunction) -> (code: u32) {
        value.0
    }
}

impl FromSpecImpl<DepthFunction> for u32 {
    open spec fn obeys_from_spec() -> bool {
        true
    }

    open spec fn from_spec(value: DepthFunction) -> u32 {
        value.code()
    }
}

/// The number of components of a vertex attribute.
#[derive(Clone, Copy, Debug, PartialEq, Eq, Hash, Structural)]
pub struct AttributeSize(i32);

#[allow(non_snake_case)]
impl AttributeSize {
    #[verifier::type_invariant]
    spec fn is_known(self) -> bool {
        Self::names(self.0)
    }

    /// Whether `code` is the number of a value of this type.
    pub open spec fn names(code: i32) -> bool {
        ||| code == 1
        ||| code == 2
        ||| code == 3
        ||| code == 4
    }

    /// The number that WebGL2 knows the value by.
    pub closed spec fn code(self) -> i32 {
        self.0
    }

    pub fn ONE() -> (value: Self)
        ensures
            value.code() == 1,
    {
        AttributeSize(1)
    }

    pub fn TWO() -> (value: Self)
        ensures
            value.code() == 2,
    {
        AttributeSize(2)
    }

    pub fn THREE() -> (value: Self)
        ensures
            value.code() == 3,
    {
        AttributeSize(3)
    }

    pub fn FOUR() -> (value: Self)
        ensures
            value.code() == 4,
    {
        AttributeSize(4)
    }
}

impl From<AttributeSize> for i32 {
    fn from(value: AttributeSize) -> (code: i32) {
        value.0
    }
}

impl FromSpecImpl<AttributeSize> for i32 {
    open spec fn obeys_from_spec() -> bool {
        true
    }

    open spec fn from_spec(value: AttributeSize) -> i32 {
        value.code()
    }
}

/// The primitives that a draw call assembles from the vertices.
#[derive(Clone, Copy, Debug, PartialEq, Eq, Hash, Structural)]
pub struct PrimitiveType(u32);

#[allow(non_snake_case)]
impl PrimitiveType {
    #[verifier::type_invariant]
    spec fn is_known(self) -> bool {
        Self::names(self.0)
    }

    /// Whether `code` is the number of a value of this type.
    pub open spec fn names(code: u32) -> bool {
        ||| code == codes::POINTS
        ||| code == codes::LINE_STRIP
        ||| code == codes::LINE_LOOP
        ||| code == codes::LINES
        ||| code == codes::TRIANGLE_STRIP
        ||| code == codes::TRIANGLE_FAN
        ||| code == codes::TRIANGLES
    }

    /// The number that WebGL2 knows the value by.
    pub closed spec fn code(self) -> u32 {
        self.0
    }

    pub fn POINTS() -> (value: Self)
        ensures
            value.code() == codes::POINTS,
    {
        PrimitiveType(codes::POINTS)
    }

    pub fn LINE_STRIP() -> (value: Self)
        ensures
            value.code() == codes::LINE_STRIP,
    {
        PrimitiveType(codes::LINE_STRIP)
    }

    pub fn LINE_LOOP() -> (value: Self)
        ensures
            value.code() == codes::LINE_LOOP,
    {
        PrimitiveType(codes::LINE_LOOP)
    }

    pub fn LINES() -> (value: Self)
        ensures
            value.code() == codes::LINES,
    {
        PrimitiveType(codes::LINES)
    }

    pub fn TRIANGLE_STRIP() -> (value: Self)
        ensures
            value.code() == codes::TRIANGLE_STRIP,
    {
        PrimitiveType(codes::TRIANGLE_STRIP)
    }

    pub fn TRIANGLE_FAN() -> (value: Self)
        ensures
            value.code() == codes::TRIANGLE_FAN,
    {
        PrimitiveType(codes::TRIANGLE_FAN)
    }

    pub fn TRIANGLES() -> (value: Self)
        ensures
            value.code() == codes::TRIANGLES,
    {
        PrimitiveType(codes::TRIANGLES)
    }
}

impl From<PrimitiveType> for u32 {
    fn from(value: PrimitiveType) -> (code: u32) {
        value.0
    }
}

impl FromSpecImpl<PrimitiveType> for u32 {
    open spec fn obeys_from_spec() -> bool {
        true
    }

    open spec fn from_spec(value: PrimitiveType) -> u32 {
        value.code()
    }
}

/// The type of the indices of an indexed draw call.
#[derive(Clone, Copy, Debug, PartialEq, Eq, Hash, Structural)]
pub struct IndexType(u32);

#[allow(non_snake_case)]
impl IndexType {
    #[verifier::type_invariant]
    spec fn is_known(self) -> bool {
        Self::names(self.0)
    }

    /// Whether `code` is the number of a value of this type.
    pub open spec fn names(code: u32) -> bool {
        ||| code == codes::UNSIGNED_BYTE
        ||| code == codes::UNSIGNED_SHORT
        ||| code == codes::UNSIGNED_INT
    }

    /// The number that WebGL2 knows the value by.
    pub closed spec fn code(self) -> u32 {
        self.0
    }

    pub fn U8() -> (value: Self)
        ensures
            value.code() == codes::UNSIGNED_BYTE,
    {
        IndexType(codes::UNSIGNED_BYTE)
    }

    pub fn U16() -> (value: Self)
        ensures
            value.code() == codes::UNSIGNED_SHORT,
    {
        IndexType(codes::UNSIGNED_SHORT)
    }

    pub fn U32() -> (value: Self)
        ensures
            value.code() == codes::UNSIGNED_INT,
    {
        IndexType(codes::UNSIGNED_INT)
    }
}

impl From<IndexType> for u32 {
    fn from(value: IndexType) -> (code: u32) {
        value.0
    }
}

impl FromSpecImpl<IndexType> for u32 {
    open spec fn obeys_from_spec() -> bool {
        true
    }

    open spec fn from_spec(value: IndexType) -> u32 {
        value.code()
    }
}

/// The faces that are culled.
#[derive(Clone, Copy, Debug, PartialEq, Eq, Hash, Structural)]
pub struct CullMode(u32);

#[allow(non_snake_case)]
impl CullMode {
    #[verifier::type_invariant]
    spec fn is_known(self) -> bool {
        Self::names(self.0)
    }

    /// Whether `code` is the number of a value of this type.
    pub open spec fn names(code: u32) -> bool {
        ||| code == codes::FRONT
        ||| code == codes::BACK
        ||| code == codes::FRONT_AND_BACK
    }

    /// The number that WebGL2 knows the value by.
    pub closed spec fn code(self) -> u32 {
        self.0
    }

    pub fn FRONT() -> (value: Self)
        ensures
            value.code() == codes::FRONT,
    {
        CullMode(codes::FRONT)
    }

    pub fn BACK() -> (value: Self)
        ensures
            value.code() == codes::BACK,
    {
        CullMode(codes::BACK)
    }

    pub fn FRONT_AND_BACK() -> (value: Self)
        ensures
            value.code() == codes::FRONT_AND_BACK,
    {
        CullMode(codes::FRONT_AND_BACK)
    }
}

impl From<CullMode> for u32 {
    fn from(value: CullMode) -> (code: u32) {
        value.0
    }
}

impl FromSpecImpl<CullMode> for u32 {
    open spec fn obeys_from_spec() -> bool {
        true
    }

    open spec fn from_spec(value: CullMode) -> u32 {
        value.code()
    }
}

/// The winding by which a face counts as a front face.
#[derive(Clone, Copy, Debug, PartialEq, Eq, Hash, Structural)]
pub struct FrontFaceWinding(u32);

#[allow(non_snake_case)]
impl FrontFaceWinding {
    #[verifier::type_invariant]
    spec fn is_known(self) -> bool {
        Self::names(self.0)
    }

    /// Whether `code` is the number of a value of this type.
    pub open spec fn names(code: u32) -> bool {
        ||| code == codes::CW
        ||| code == codes::CCW
    }

    /// The number that WebGL2 knows the value by.
    pub closed spec fn code(self) -> u32 {
        self.0
    }

    pub fn CLOCK_WISE() -> (value: Self)
        ensures
            value.code() == codes::CW,
    {
        FrontFaceWinding(codes::CW)
    }

    pub fn COUNTER_CLOCK_WISE() -> (value: Self)
        ensures
            value.code() == codes::CCW,
    {
        FrontFaceWinding(codes::CCW)
    }
}

impl From<FrontFaceWinding> for u32 {
    fn from(value: FrontFaceWinding) -> (code: u32) {
        value.0
    }
}

impl FromSpecImpl<FrontFaceWinding> for u32 {
    open spec fn obeys_from_spec() -> bool {
        true
    }

    open spec fn from_spec(value: FrontFaceWinding) -> u32 {
        value.code()
    }
}

/// A buffer of a framebuffer, as one bit of a mask. Masks are combined with `|`.
#[derive(Clone, Copy, Debug, PartialEq, Eq, Hash, Structural)]
pub struct ClearMaskBits(u32);

#[allow(non_snake_case)]
impl ClearMaskBits {
    #[verifier::type_invariant]
    spec fn is_known(self) -> bool {
        Self::names(self.0)
    }

    /// Whether `code` is the number of a value of this type.
    pub open spec fn names(code: u32) -> bool {
        ||| code == codes::COLOR_BUFFER_BIT
        ||| code == codes::DEPTH_BUFFER_BIT
        ||| code == codes::STENCIL_BUFFER_BIT
    }

    /// The number that WebGL2 knows the value by.
    pub closed spec fn code(self) -> u32 {
        self.0
    }

    pub fn COLOR_BUFFER_BIT() -> (value: Self)
        ensures
            value.code() == codes::COLOR_BUFFER_BIT,
    {
        ClearMaskBits(codes::COLOR_BUFFER_BIT)
    }

    pub fn DEPTH_BUFFER_BIT() -> (value: Self)
        ensures
            value.code() == codes::DEPTH_BUFFER_BIT,
    {
        ClearMaskBits(codes::DEPTH_BUFFER_BIT)
    }

    pub fn STENCIL_BUFFER_BIT() -> (value: Self)
        ensures
            value.code() == codes::STENCIL_BUFFER_BIT,
    {
        ClearMaskBits(codes::STENCIL_BUFFER_BIT)
    }

    /// The number that WebGL2 knows the value by.
    pub fn value(self) -> (code: u32)
        ensures
            code == self.code(),
            Self::names(code),
    {
        proof {
            use_type_invariant(&self);
        }
        self.0
    }
}

impl From<ClearMaskBits> for u32 {
    fn from(value: ClearMaskBits) -> (code: u32) {
        value.0
    }
}

impl FromSpecImpl<ClearMaskBits> for u32 {
    open spec fn obeys_from_spec() -> bool {
        true
    }

    open spec fn from_spec(value: ClearMaskBits) -> u32 {
        value.code()
    }
}

} // verus!
