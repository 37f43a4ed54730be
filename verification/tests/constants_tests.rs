use web_sys::WebGl2RenderingContext as gl;
use webgl2_graphics::constants::{
    AttributeSize, BindingPoint, BlendEquation, BlendFuncFactor, BufferUsage, ClearMaskBits,
    CullMode, DepthFunction, FrontFaceWinding, IndexType, NumberType, PrimitiveType,
    ProgramParamerter, ShaderType, StencilFunc, StencilOp, WebGlCapability,
};
use webgl2_graphics::framebuffer::FramebufferBinding;
use webgl2_graphics::limits::DeviceLimit;
use webgl2_graphics::texture::{
    MagFilter, MinFilter, TextureBindTarget, TextureCompareFunc, TextureInternalFormat,
    TextureWrap, TextureWrapSelect,
};

#[test]
fn blend_equation_values() {
    assert_eq!(u32::from(BlendEquation::FUNC_ADD()), gl::FUNC_ADD);
    assert_eq!(u32::from(BlendEquation::FUNC_SUBTRACT()), gl::FUNC_SUBTRACT);
    assert_eq!(u32::from(BlendEquation::FUNC_REVERSE_SUBTRACT()), gl::FUNC_REVERSE_SUBTRACT);
    assert_eq!(u32::from(BlendEquation::MIN()), gl::MIN);
    assert_eq!(u32::from(BlendEquation::MAX()), gl::MAX);
}

#[test]
fn blend_func_factor_values() {
    assert_eq!(u32::from(BlendFuncFactor::ZERO()), gl::ZERO);
    assert_eq!(u32::from(BlendFuncFactor::ONE()), gl::ONE);
    assert_eq!(u32::from(BlendFuncFactor::SRC_COLOR()), gl::SRC_COLOR);
    assert_eq!(u32::from(BlendFuncFactor::ONE_MINUS_SRC_COLOR()), gl::ONE_MINUS_SRC_COLOR);
    assert_eq!(u32::from(BlendFuncFactor::DST_COLOR()), gl::DST_COLOR);
    assert_eq!(u32::from(BlendFuncFactor::ONE_MINUS_DST_COLOR()), gl::ONE_MINUS_DST_COLOR);
    assert_eq!(u32::from(BlendFuncFactor::SRC_ALPHA()), gl::SRC_ALPHA);
    assert_eq!(u32::from(BlendFuncFactor::ONE_MINUS_SRC_ALPHA()), gl::ONE_MINUS_SRC_ALPHA);
    assert_eq!(u32::from(BlendFuncFactor::DST_ALPHA()), gl::DST_ALPHA);
    assert_eq!(u32::from(BlendFuncFactor::ONE_MINUS_DST_ALPHA()), gl::ONE_MINUS_DST_ALPHA);
    assert_eq!(u32::from(BlendFuncFactor::CONSTANT_COLOR()), gl::CONSTANT_COLOR);
    assert_eq!(u32::from(BlendFuncFactor::ONE_MINUS_CONSTANT_COLOR()), gl::ONE_MINUS_CONSTANT_COLOR);
    assert_eq!(u32::from(BlendFuncFactor::CONSTANT_ALPHA()), gl::CONSTANT_ALPHA);
    assert_eq!(u32::from(BlendFuncFactor::ONE_MINUS_CONSTANT_ALPHA()), gl::ONE_MINUS_CONSTANT_ALPHA);
    assert_eq!(u32::from(BlendFuncFactor::SRC_ALPHA_SATURATE()), gl::SRC_ALPHA_SATURATE);
}

#[test]
fn stencil_func_values() {
    assert_eq!(u32::from(StencilFunc::NEVER()), gl::NEVER);
    assert_eq!(u32::from(StencilFunc::LESS()), gl::LESS);
    assert_eq!(u32::from(StencilFunc::EQUAL()), gl::EQUAL);
    assert_eq!(u32::from(StencilFunc::LEQUAL()), gl::LEQUAL);
    assert_eq!(u32::from(StencilFunc::GREATER()), gl::GREATER);
    assert_eq!(u32::from(StencilFunc::NOTEQUAL()), gl::NOTEQUAL);
    assert_eq!(u32::from(StencilFunc::GEQUAL()), gl::GEQUAL);
    assert_eq!(u32::from(StencilFunc::ALWAYS()), gl::ALWAYS);
}

#[test]
fn stencil_op_values() {
    assert_eq!(u32::from(StencilOp::KEEP()), gl::KEEP);
    assert_eq!(u32::from(StencilOp::ZERO()), gl::ZERO);
    assert_eq!(u32::from(StencilOp::REPLACE()), gl::REPLACE);
    assert_eq!(u32::from(StencilOp::INCR()), gl::INCR);
    assert_eq!(u32::from(StencilOp::INCR_WRAP()), gl::INCR_WRAP);
    assert_eq!(u32::from(StencilOp::DECR()), gl::DECR);
    assert_eq!(u32::from(StencilOp::DECR_WRAP()), gl::DECR_WRAP);
    assert_eq!(u32::from(StencilOp::INVERT()), gl::INVERT);
}

#[test]
fn shader_type_values() {
    assert_eq!(u32::from(ShaderType::VERTEX_SHADER()), gl::VERTEX_SHADER);
    assert_eq!(u32::from(ShaderType::FRAGMENT_SHADER()), gl::FRAGMENT_SHADER);
    assert_eq!(u32::from(ShaderType::FRAGMENT_SHADER_DERIVATIVE_HINT()), gl::FRAGMENT_SHADER_DERIVATIVE_HINT);
}

#[test]
fn webgl_capability_values() {
    assert_eq!(u32::from(WebGlCapability::BLEND()), gl::BLEND);
    assert_eq!(u32::from(WebGlCapability::CULL_FACE()), gl::CULL_FACE);
    assert_eq!(u32::from(WebGlCapability::DEPTH_TEST()), gl::DEPTH_TEST);
    assert_eq!(u32::from(WebGlCapability::DITHER()), gl::DITHER);
    assert_eq!(u32::from(WebGlCapability::POLYGON_OFFSET_FILL()), gl::POLYGON_OFFSET_FILL);
    assert_eq!(u32::from(WebGlCapability::SAMPLE_ALPHA_TO_COVERAGE()), gl::SAMPLE_ALPHA_TO_COVERAGE);
    assert_eq!(u32::from(WebGlCapability::SAMPLE_COVERAGE()), gl::SAMPLE_COVERAGE);
    assert_eq!(u32::from(WebGlCapability::SCISSOR_TEST()), gl::SCISSOR_TEST);
    assert_eq!(u32::from(WebGlCapability::STENCIL_TEST()), gl::STENCIL_TEST);
    assert_eq!(u32::from(WebGlCapability::RASTERIZER_DISCARD()), gl::RASTERIZER_DISCARD);
}

#[test]
fn binding_point_values() {
    assert_eq!(u32::from(BindingPoint::ARRAY_BUFFER()), gl::ARRAY_BUFFER);
    assert_eq!(u32::from(BindingPoint::ELEMENT_ARRAY_BUFFER()), gl::ELEMENT_ARRAY_BUFFER);
    assert_eq!(u32::from(BindingPoint::INDEX_BUFFER()), gl::ELEMENT_ARRAY_BUFFER);
    assert_eq!(u32::from(BindingPoint::COPY_READ_BUFFER()), gl::COPY_READ_BUFFER);
    assert_eq!(u32::from(BindingPoint::COPY_WRITE_BUFFER()), gl::COPY_WRITE_BUFFER);
    assert_eq!(u32::from(BindingPoint::TRANSFORM_FEEDBACK_BUFFER()), gl::TRANSFORM_FEEDBACK_BUFFER);
    assert_eq!(u32::from(BindingPoint::UNIFORM_BUFFER()), gl::UNIFORM_BUFFER);
    assert_eq!(u32::from(BindingPoint::PIXEL_PACK_BUFFER()), gl::PIXEL_PACK_BUFFER);
    assert_eq!(u32::from(BindingPoint::PIXEL_UNPACK_BUFFER()), gl::PIXEL_UNPACK_BUFFER);
}

#[test]
fn buffer_usage_values() {
    assert_eq!(u32::from(BufferUsage::STATIC_DRAW()), gl::STATIC_DRAW);
    assert_eq!(u32::from(BufferUsage::DYNAMIC_DRAW()), gl::DYNAMIC_DRAW);
    assert_eq!(u32::from(BufferUsage::STREAM_DRAW()), gl::STREAM_DRAW);
    assert_eq!(u32::from(BufferUsage::STATIC_READ()), gl::STATIC_READ);
    assert_eq!(u32::from(BufferUsage::DYNAMIC_READ()), gl::DYNAMIC_READ);
    assert_eq!(u32::from(BufferUsage::STREAM_READ()), gl::STREAM_READ);
    assert_eq!(u32::from(BufferUsage::STATIC_COPY()), gl::STATIC_COPY);
    assert_eq!(u32::from(BufferUsage::DYNAMIC_COPY()), gl::DYNAMIC_COPY);
    assert_eq!(u32::from(BufferUsage::STREAM_COPY()), gl::STREAM_COPY);
}

#[test]
fn number_type_values() {
    assert_eq!(u32::from(NumberType::BYTE()), gl::BYTE);
    assert_eq!(u32::from(NumberType::SHORT()), gl::SHORT);
    assert_eq!(u32::from(NumberType::UNSIGNED_BYTE()), gl::UNSIGNED_BYTE);
    assert_eq!(u32::from(NumberType::UNSIGNED_SHORT()), gl::UNSIGNED_SHORT);
    assert_eq!(u32::from(NumberType::INT()), gl::INT);
    assert_eq!(u32::from(NumberType::UNSIGNED_INT()), gl::UNSIGNED_INT);
    assert_eq!(u32::from(NumberType::FLOAT()), gl::FLOAT);
    assert_eq!(u32::from(NumberType::HALF_FLOAT()), gl::HALF_FLOAT);
}

#[test]
fn program_paramerter_values() {
    assert_eq!(u32::from(ProgramParamerter::DELETE_STATUS()), gl::DELETE_STATUS);
    assert_eq!(u32::from(ProgramParamerter::LINK_STATUS()), gl::LINK_STATUS);
    assert_eq!(u32::from(ProgramParamerter::VALIDATE_STATUS()), gl::VALIDATE_STATUS);
    assert_eq!(u32::from(ProgramParamerter::ATTACHED_SHADERS()), gl::ATTACHED_SHADERS);
    assert_eq!(u32::from(ProgramParamerter::ACTIVE_ATTRIBUTES()), gl::ACTIVE_ATTRIBUTES);
    assert_eq!(u32::from(ProgramParamerter::ACTIVE_UNIFORMS()), gl::ACTIVE_UNIFORMS);
    assert_eq!(u32::from(ProgramParamerter::TRANSFORM_FEEDBACK_BUFFER_MODE()), gl::TRANSFORM_FEEDBACK_BUFFER_MODE);
    assert_eq!(u32::from(ProgramParamerter::TRANSFORM_FEEDBACK_VARYINGS()), gl::TRANSFORM_FEEDBACK_VARYINGS);
    assert_eq!(u32::from(ProgramParamerter::ACTIVE_UNIFORM_BLOCKS()), gl::ACTIVE_UNIFORM_BLOCKS);
}

#[test]
fn depth_function_values() {
    assert_eq!(u32::from(DepthFunction::NEVER()), gl::NEVER);
    assert_eq!(u32::from(DepthFunction::LESS()), gl::LESS);
    assert_eq!(u32::from(DepthFunction::EQUAL()), gl::EQUAL);
    assert_eq!(u32::from(DepthFunction::LEQUAL()), gl::LEQUAL);
    assert_eq!(u32::from(DepthFunction::GREATER()), gl::GREATER);
    assert_eq!(u32::from(DepthFunction::NOTEQUAL()), gl::NOTEQUAL);
    assert_eq!(u32::from(DepthFunction::GEQUAL()), gl::GEQUAL);
    assert_eq!(u32::from(DepthFunction::ALWAYS()), gl::ALWAYS);
}

#[test]
fn attribute_size_values() {
    assert_eq!(i32::from(AttributeSize::ONE()), 1);
    assert_eq!(i32::from(AttributeSize::TWO()), 2);
    assert_eq!(i32::from(AttributeSize::THREE()), 3);
    assert_eq!(i32::from(AttributeSize::FOUR()), 4);
}

#[test]
fn primitive_type_values() {
    assert_eq!(u32::from(PrimitiveType::POINTS()), gl::POINTS);
    assert_eq!(u32::from(PrimitiveType::LINE_STRIP()), gl::LINE_STRIP);
    assert_eq!(u32::from(PrimitiveType::LINE_LOOP()), gl::LINE_LOOP);
    assert_eq!(u32::from(PrimitiveType::LINES()), gl::LINES);
    assert_eq!(u32::from(PrimitiveType::TRIANGLE_STRIP()), gl::TRIANGLE_STRIP);
    assert_eq!(u32::from(PrimitiveType::TRIANGLE_FAN()), gl::TRIANGLE_FAN);
    assert_eq!(u32::from(PrimitiveType::TRIANGLES()), gl::TRIANGLES);
}

#[test]
fn index_type_values() {
    assert_eq!(u32::from(IndexType::U8()), gl::UNSIGNED_BYTE);
    assert_eq!(u32::from(IndexType::U16()), gl::UNSIGNED_SHORT);
    assert_eq!(u32::from(IndexType::U32()), gl::UNSIGNED_INT);
}

#[test]
fn cull_mode_values() {
    assert_eq!(u32::from(CullMode::FRONT()), gl::FRONT);
    assert_eq!(u32::from(CullMode::BACK()), gl::BACK);
    assert_eq!(u32::from(CullMode::FRONT_AND_BACK()), gl::FRONT_AND_BACK);
}

#[test]
fn front_face_winding_values() {
    assert_eq!(u32::from(FrontFaceWinding::CLOCK_WISE()), gl::CW);
    assert_eq!(u32::from(FrontFaceWinding::COUNTER_CLOCK_WISE()), gl::CCW);
}

#[test]
fn clear_mask_bits_values() {
    assert_eq!(u32::from(ClearMaskBits::COLOR_BUFFER_BIT()), gl::COLOR_BUFFER_BIT);
    assert_eq!(u32::from(ClearMaskBits::DEPTH_BUFFER_BIT()), gl::DEPTH_BUFFER_BIT);
    assert_eq!(u32::from(ClearMaskBits::STENCIL_BUFFER_BIT()), gl::STENCIL_BUFFER_BIT);
}

#[test]
fn device_limit_values() {
    assert_eq!(u32::from(DeviceLimit::MAX_3D_TEXTURE_SIZE()), gl::MAX_3D_TEXTURE_SIZE);
    assert_eq!(u32::from(DeviceLimit::MAX_ARRAY_TEXTURE_LAYERS()), gl::MAX_ARRAY_TEXTURE_LAYERS);
    assert_eq!(u32::from(DeviceLimit::MAX_CLIENT_WAIT_TIMEOUT_WEBGL()), gl::MAX_CLIENT_WAIT_TIMEOUT_WEBGL);
    assert_eq!(u32::from(DeviceLimit::MAX_COLOR_ATTACHMENTS()), gl::MAX_COLOR_ATTACHMENTS);
    assert_eq!(u32::from(DeviceLimit::MAX_COMBINED_FRAGMENT_UNIFORM_COMPONENTS()), gl::MAX_COMBINED_FRAGMENT_UNIFORM_COMPONENTS);
    assert_eq!(u32::from(DeviceLimit::MAX_COMBINED_UNIFORM_BLOCKS()), gl::MAX_COMBINED_UNIFORM_BLOCKS);
    assert_eq!(u32::from(DeviceLimit::MAX_COMBINED_VERTEX_UNIFORM_COMPONENTS()), gl::MAX_COMBINED_VERTEX_UNIFORM_COMPONENTS);
    assert_eq!(u32::from(DeviceLimit::MAX_DRAW_BUFFERS()), gl::MAX_DRAW_BUFFERS);
    assert_eq!(u32::from(DeviceLimit::MAX_ELEMENT_INDEX()), gl::MAX_ELEMENT_INDEX);
    assert_eq!(u32::from(DeviceLimit::MAX_ELEMENTS_INDICES()), gl::MAX_ELEMENTS_INDICES);
    assert_eq!(u32::from(DeviceLimit::MAX_ELEMENTS_VERTICES()), gl::MAX_ELEMENTS_VERTICES);
    assert_eq!(u32::from(DeviceLimit::MAX_FRAGMENT_INPUT_COMPONENTS()), gl::MAX_FRAGMENT_INPUT_COMPONENTS);
    assert_eq!(u32::from(DeviceLimit::MAX_FRAGMENT_UNIFORM_BLOCKS()), gl::MAX_FRAGMENT_UNIFORM_BLOCKS);
    assert_eq!(u32::from(DeviceLimit::MAX_FRAGMENT_UNIFORM_COMPONENTS()), gl::MAX_FRAGMENT_UNIFORM_COMPONENTS);
    assert_eq!(u32::from(DeviceLimit::MAX_PROGRAM_TEXEL_OFFSET()), gl::MAX_PROGRAM_TEXEL_OFFSET);
    assert_eq!(u32::from(DeviceLimit::MAX_SAMPLES()), gl::MAX_SAMPLES);
    assert_eq!(u32::from(DeviceLimit::MAX_VERTEX_TEXTURE_IMAGE_UNITS()), gl::MAX_VERTEX_TEXTURE_IMAGE_UNITS);
    assert_eq!(u32::from(DeviceLimit::MAX_SERVER_WAIT_TIMEOUT()), gl::MAX_SERVER_WAIT_TIMEOUT);
    assert_eq!(u32::from(DeviceLimit::MAX_TEXTURE_LOD_BIAS()), gl::MAX_TEXTURE_LOD_BIAS);
    assert_eq!(u32::from(DeviceLimit::MAX_TRANSFORM_FEEDBACK_INTERLEAVED_COMPONENTS()), gl::MAX_TRANSFORM_FEEDBACK_INTERLEAVED_COMPONENTS);
    assert_eq!(u32::from(DeviceLimit::MAX_TRANSFORM_FEEDBACK_SEPARATE_ATTRIBS()), gl::MAX_TRANSFORM_FEEDBACK_SEPARATE_ATTRIBS);
    assert_eq!(u32::from(DeviceLimit::MAX_TRANSFORM_FEEDBACK_SEPARATE_COMPONENTS()), gl::MAX_TRANSFORM_FEEDBACK_SEPARATE_COMPONENTS);
    assert_eq!(u32::from(DeviceLimit::MAX_UNIFORM_BLOCK_SIZE()), gl::MAX_UNIFORM_BLOCK_SIZE);
    assert_eq!(u32::from(DeviceLimit::MAX_UNIFORM_BUFFER_BINDINGS()), gl::MAX_UNIFORM_BUFFER_BINDINGS);
    assert_eq!(u32::from(DeviceLimit::MAX_VARYING_COMPONENTS()), gl::MAX_VARYING_COMPONENTS);
    assert_eq!(u32::from(DeviceLimit::MAX_VERTEX_OUTPUT_COMPONENTS()), gl::MAX_VERTEX_OUTPUT_COMPONENTS);
    assert_eq!(u32::from(DeviceLimit::MAX_VERTEX_UNIFORM_BLOCKS()), gl::MAX_VERTEX_UNIFORM_BLOCKS);
    assert_eq!(u32::from(DeviceLimit::MAX_VERTEX_UNIFORM_COMPONENTS()), gl::MAX_VERTEX_UNIFORM_COMPONENTS);
    assert_eq!(u32::from(DeviceLimit::MIN_PROGRAM_TEXEL_OFFSET()), gl::MIN_PROGRAM_TEXEL_OFFSET);
}

#[test]
fn framebuffer_binding_values() {
    assert_eq!(u32::from(FramebufferBinding::DRAW_FRAMEBUFFER()), gl::DRAW_FRAMEBUFFER);
    assert_eq!(u32::from(FramebufferBinding::READ_FRAMEBUFFER()), gl::READ_FRAMEBUFFER);
}

#[test]
fn texture_bind_target_values() {
    assert_eq!(u32::from(TextureBindTarget::TEXTURE_2D()), gl::TEXTURE_2D);
    assert_eq!(u32::from(TextureBindTarget::TEXTURE_3D()), gl::TEXTURE_3D);
    assert_eq!(u32::from(TextureBindTarget::TEXTURE_CUBE_MAP()), gl::TEXTURE_CUBE_MAP);
    assert_eq!(u32::from(TextureBindTarget::TEXTURE_2D_ARRAY()), gl::TEXTURE_2D_ARRAY);
}

#[test]
fn mag_filter_values() {
    assert_eq!(u32::from(MagFilter::LINEAR()), gl::LINEAR);
    assert_eq!(u32::from(MagFilter::NEAREST()), gl::NEAREST);
}

#[test]
fn min_filter_values() {
    assert_eq!(u32::from(MinFilter::LINEAR()), gl::LINEAR);
    assert_eq!(u32::from(MinFilter::NEAREST()), gl::NEAREST);
    assert_eq!(u32::from(MinFilter::NEAREST_MIPMAP_NEAREST()), gl::NEAREST_MIPMAP_NEAREST);
    assert_eq!(u32::from(MinFilter::LINEAR_MIPMAP_NEAREST()), gl::LINEAR_MIPMAP_NEAREST);
    assert_eq!(u32::from(MinFilter::NEAREST_MIPMAP_LINEAR()), gl::NEAREST_MIPMAP_LINEAR);
    assert_eq!(u32::from(MinFilter::LINEAR_MIPMAP_LINEAR()), gl::LINEAR_MIPMAP_LINEAR);
}

#[test]
fn texture_wrap_values() {
    assert_eq!(u32::from(TextureWrap::REPEAT()), gl::REPEAT);
    assert_eq!(u32::from(TextureWrap::CLAMP_TO_EDGE()), gl::CLAMP_TO_EDGE);
    assert_eq!(u32::from(TextureWrap::MIRRORED_REPEAT()), gl::MIRRORED_REPEAT);
}

#[test]
fn texture_wrap_select_values() {
    assert_eq!(u32::from(TextureWrapSelect::TEXTURE_WRAP_X()), gl::TEXTURE_WRAP_S);
    assert_eq!(u32::from(TextureWrapSelect::TEXTURE_WRAP_Y()), gl::TEXTURE_WRAP_T);
    assert_eq!(u32::from(TextureWrapSelect::TEXTURE_WRAP_Z()), gl::TEXTURE_WRAP_R);
}

#[test]
fn texture_compare_func_values() {
    assert_eq!(u32::from(TextureCompareFunc::LEQUAL()), gl::LEQUAL);
    assert_eq!(u32::from(TextureCompareFunc::GEQUAL()), gl::GEQUAL);
    assert_eq!(u32::from(TextureCompareFunc::LESS()), gl::LESS);
    assert_eq!(u32::from(TextureCompareFunc::GREATER()), gl::GREATER);
    assert_eq!(u32::from(TextureCompareFunc::EQUAL()), gl::EQUAL);
    assert_eq!(u32::from(TextureCompareFunc::NOTEQUAL()), gl::NOTEQUAL);
    assert_eq!(u32::from(TextureCompareFunc::ALWAYS()), gl::ALWAYS);
    assert_eq!(u32::from(TextureCompareFunc::NEVER()), gl::NEVER);
}

#[test]
fn texture_internal_format_values() {
    assert_eq!(u32::from(TextureInternalFormat::R8()), gl::R8);
    assert_eq!(u32::from(TextureInternalFormat::R8_SNORM()), gl::R8_SNORM);
    assert_eq!(u32::from(TextureInternalFormat::RG8()), gl::RG8);
    assert_eq!(u32::from(TextureInternalFormat::RG8_SNORM()), gl::RG8_SNORM);
    assert_eq!(u32::from(TextureInternalFormat::RGB8()), gl::RGB8);
    assert_eq!(u32::from(TextureInternalFormat::RGB8_SNORM()), gl::RGB8_SNORM);
    assert_eq!(u32::from(TextureInternalFormat::RGB565()), gl::RGB565);
    assert_eq!(u32::from(TextureInternalFormat::RGBA4()), gl::RGBA4);
    assert_eq!(u32::from(TextureInternalFormat::RGB5_A1()), gl::RGB5_A1);
    assert_eq!(u32::from(TextureInternalFormat::RGBA8()), gl::RGBA8);
    assert_eq!(u32::from(TextureInternalFormat::RGBA8_SNORM()), gl::RGBA8_SNORM);
    assert_eq!(u32::from(TextureInternalFormat::RGB10_A2()), gl::RGB10_A2);
    assert_eq!(u32::from(TextureInternalFormat::RGB10_A2UI()), gl::RGB10_A2UI);
    assert_eq!(u32::from(TextureInternalFormat::SRGB8()), gl::SRGB8);
    assert_eq!(u32::from(TextureInternalFormat::SRGB8_ALPHA8()), gl::SRGB8_ALPHA8);
    assert_eq!(u32::from(TextureInternalFormat::R16F()), gl::R16F);
    assert_eq!(u32::from(TextureInternalFormat::RG16F()), gl::RG16F);
    assert_eq!(u32::from(TextureInternalFormat::RGB16F()), gl::RGB16F);
    assert_eq!(u32::from(TextureInternalFormat::RGBA16F()), gl::RGBA16F);
    assert_eq!(u32::from(TextureInternalFormat::R32F()), gl::R32F);
    assert_eq!(u32::from(TextureInternalFormat::RG32F()), gl::RG32F);
    assert_eq!(u32::from(TextureInternalFormat::RGB32F()), gl::RGB32F);
    assert_eq!(u32::from(TextureInternalFormat::RGBA32F()), gl::RGBA32F);
    assert_eq!(u32::from(TextureInternalFormat::R11F_G11F_B10F()), gl::R11F_G11F_B10F);
    assert_eq!(u32::from(TextureInternalFormat::RGB9_E5()), gl::RGB9_E5);
    assert_eq!(u32::from(TextureInternalFormat::R8I()), gl::R8I);
    assert_eq!(u32::from(TextureInternalFormat::R8UI()), gl::R8UI);
    assert_eq!(u32::from(TextureInternalFormat::R16I()), gl::R16I);
    assert_eq!(u32::from(TextureInternalFormat::R16UI()), gl::R16UI);
    assert_eq!(u32::from(TextureInternalFormat::R32I()), gl::R32I);
    assert_eq!(u32::from(TextureInternalFormat::R32UI()), gl::R32UI);
    assert_eq!(u32::from(TextureInternalFormat::RG8I()), gl::RG8I);
    assert_eq!(u32::from(TextureInternalFormat::RG8UI()), gl::RG8UI);
    assert_eq!(u32::from(TextureInternalFormat::RG16I()), gl::RG16I);
    assert_eq!(u32::from(TextureInternalFormat::RG16UI()), gl::RG16UI);
    assert_eq!(u32::from(TextureInternalFormat::RG32I()), gl::RG32I);
    assert_eq!(u32::from(TextureInternalFormat::RG32UI()), gl::RG32UI);
    assert_eq!(u32::from(TextureInternalFormat::RGB8I()), gl::RGB8I);
    assert_eq!(u32::from(TextureInternalFormat::RGB8UI()), gl::RGB8UI);
    assert_eq!(u32::from(TextureInternalFormat::RGB16I()), gl::RGB16I);
    assert_eq!(u32::from(TextureInternalFormat::RGB16UI()), gl::RGB16UI);
    assert_eq!(u32::from(TextureInternalFormat::RGB32I()), gl::RGB32I);
    assert_eq!(u32::from(TextureInternalFormat::RGB32UI()), gl::RGB32UI);
    assert_eq!(u32::from(TextureInternalFormat::RGBA8I()), gl::RGBA8I);
    assert_eq!(u32::from(TextureInternalFormat::RGBA8UI()), gl::RGBA8UI);
    assert_eq!(u32::from(TextureInternalFormat::RGBA16I()), gl::RGBA16I);
    assert_eq!(u32::from(TextureInternalFormat::RGBA16UI()), gl::RGBA16UI);
    assert_eq!(u32::from(TextureInternalFormat::RGBA32I()), gl::RGBA32I);
    assert_eq!(u32::from(TextureInternalFormat::RGBA32UI()), gl::RGBA32UI);
    assert_eq!(u32::from(TextureInternalFormat::DEPTH_COMPONENT16()), gl::DEPTH_COMPONENT16);
    assert_eq!(u32::from(TextureInternalFormat::DEPTH_COMPONENT24()), gl::DEPTH_COMPONENT24);
    assert_eq!(u32::from(TextureInternalFormat::DEPTH_COMPONENT32F()), gl::DEPTH_COMPONENT32F);
    assert_eq!(u32::from(TextureInternalFormat::DEPTH24_STENCIL8()), gl::DEPTH24_STENCIL8);
}
#[test]
fn integer_types_are_told_from_floating_point_types() {
    assert!(NumberType::BYTE().is_integer_type());
    assert!(NumberType::SHORT().is_integer_type());
    assert!(NumberType::UNSIGNED_BYTE().is_integer_type());
    assert!(NumberType::UNSIGNED_SHORT().is_integer_type());
    assert!(NumberType::INT().is_integer_type());
    assert!(NumberType::UNSIGNED_INT().is_integer_type());
    assert!(!NumberType::FLOAT().is_integer_type());
    assert!(!NumberType::HALF_FLOAT().is_integer_type());
}

#[test]
fn value_is_the_number_of_the_constant() {
    assert_eq!(ClearMaskBits::COLOR_BUFFER_BIT().value(), 0x4000);
    assert_eq!(ClearMaskBits::DEPTH_BUFFER_BIT().value(), 0x0100);
    assert_eq!(ClearMaskBits::STENCIL_BUFFER_BIT().value(), 0x0400);
    assert_eq!(DeviceLimit::MAX_SAMPLES().value(), gl::MAX_SAMPLES);
    assert_eq!(DeviceLimit::MAX_VERTEX_TEXTURE_IMAGE_UNITS().value(), 35660);
}

#[test]
fn values_of_one_type_compare_by_their_number() {
    assert_eq!(BindingPoint::INDEX_BUFFER(), BindingPoint::ELEMENT_ARRAY_BUFFER());
    assert_ne!(BindingPoint::ARRAY_BUFFER(), BindingPoint::ELEMENT_ARRAY_BUFFER());
    let into: u32 = CullMode::BACK().into();
    assert_eq!(into, 0x0405);
}
