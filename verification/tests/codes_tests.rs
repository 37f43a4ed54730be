use web_sys::WebGl2RenderingContext as gl;
use webgl2_graphics::codes;

#[test]
fn codes_are_those_of_the_context_1() {
    assert_eq!(codes::POINTS, gl::POINTS);
    assert_eq!(codes::ZERO, gl::ZERO);
    assert_eq!(codes::LINES, gl::LINES);
    assert_eq!(codes::ONE, gl::ONE);
    assert_eq!(codes::LINE_LOOP, gl::LINE_LOOP);
    assert_eq!(codes::LINE_STRIP, gl::LINE_STRIP);
    assert_eq!(codes::TRIANGLES, gl::TRIANGLES);
    assert_eq!(codes::TRIANGLE_STRIP, gl::TRIANGLE_STRIP);
    assert_eq!(codes::TRIANGLE_FAN, gl::TRIANGLE_FAN);
    assert_eq!(codes::DEPTH_BUFFER_BIT, gl::DEPTH_BUFFER_BIT);
    assert_eq!(codes::NEVER, gl::NEVER);
    assert_eq!(codes::LESS, gl::LESS);
    assert_eq!(codes::EQUAL, gl::EQUAL);
    assert_eq!(codes::LEQUAL, gl::LEQUAL);
    assert_eq!(codes::GREATER, gl::GREATER);
    assert_eq!(codes::NOTEQUAL, gl::NOTEQUAL);
    assert_eq!(codes::GEQUAL, gl::GEQUAL);
    assert_eq!(codes::ALWAYS, gl::ALWAYS);
    assert_eq!(codes::SRC_COLOR, gl::SRC_COLOR);
    assert_eq!(codes::ONE_MINUS_SRC_COLOR, gl::ONE_MINUS_SRC_COLOR);
    assert_eq!(codes::SRC_ALPHA, gl::SRC_ALPHA);
    assert_eq!(codes::ONE_MINUS_SRC_ALPHA, gl::ONE_MINUS_SRC_ALPHA);
    assert_eq!(codes::DST_ALPHA, gl::DST_ALPHA);
    assert_eq!(codes::ONE_MINUS_DST_ALPHA, gl::ONE_MINUS_DST_ALPHA);
    assert_eq!(codes::DST_COLOR, gl::DST_COLOR);
    assert_eq!(codes::ONE_MINUS_DST_COLOR, gl::ONE_MINUS_DST_COLOR);
    assert_eq!(codes::SRC_ALPHA_SATURATE, gl::SRC_ALPHA_SATURATE);
    assert_eq!(codes::STENCIL_BUFFER_BIT, gl::STENCIL_BUFFER_BIT);
    assert_eq!(codes::FRONT, gl::FRONT);
    assert_eq!(codes::BACK, gl::BACK);
    assert_eq!(codes::FRONT_AND_BACK, gl::FRONT_AND_BACK);
    assert_eq!(codes::CW, gl::CW);
    assert_eq!(codes::CCW, gl::CCW);
    assert_eq!(codes::CULL_FACE, gl::CULL_FACE);
    assert_eq!(codes::DEPTH_TEST, gl::DEPTH_TEST);
    assert_eq!(codes::STENCIL_TEST, gl::STENCIL_TEST);
    assert_eq!(codes::DITHER, gl::DITHER);
    assert_eq!(codes::BLEND, gl::BLEND);
    assert_eq!(codes::SCISSOR_TEST, gl::SCISSOR_TEST);
    assert_eq!(codes::TEXTURE_2D, gl::TEXTURE_2D);
}

#[test]
fn codes_are_those_of_the_context_2() {
    assert_eq!(codes::BYTE, gl::BYTE);
    assert_eq!(codes::UNSIGNED_BYTE, gl::UNSIGNED_BYTE);
    assert_eq!(codes::SHORT, gl::SHORT);
    assert_eq!(codes::UNSIGNED_SHORT, gl::UNSIGNED_SHORT);
    assert_eq!(codes::INT, gl::INT);
    assert_eq!(codes::UNSIGNED_INT, gl::UNSIGNED_INT);
    assert_eq!(codes::FLOAT, gl::FLOAT);
    assert_eq!(codes::HALF_FLOAT, gl::HALF_FLOAT);
    assert_eq!(codes::INVERT, gl::INVERT);
    assert_eq!(codes::DEPTH_COMPONENT, gl::DEPTH_COMPONENT);
    assert_eq!(codes::RED, gl::RED);
    assert_eq!(codes::RGB, gl::RGB);
    assert_eq!(codes::RGBA, gl::RGBA);
    assert_eq!(codes::KEEP, gl::KEEP);
    assert_eq!(codes::REPLACE, gl::REPLACE);
    assert_eq!(codes::INCR, gl::INCR);
    assert_eq!(codes::DECR, gl::DECR);
    assert_eq!(codes::NEAREST, gl::NEAREST);
    assert_eq!(codes::LINEAR, gl::LINEAR);
    assert_eq!(codes::NEAREST_MIPMAP_NEAREST, gl::NEAREST_MIPMAP_NEAREST);
    assert_eq!(codes::LINEAR_MIPMAP_NEAREST, gl::LINEAR_MIPMAP_NEAREST);
    assert_eq!(codes::NEAREST_MIPMAP_LINEAR, gl::NEAREST_MIPMAP_LINEAR);
    assert_eq!(codes::LINEAR_MIPMAP_LINEAR, gl::LINEAR_MIPMAP_LINEAR);
    assert_eq!(codes::TEXTURE_WRAP_S, gl::TEXTURE_WRAP_S);
    assert_eq!(codes::TEXTURE_WRAP_T, gl::TEXTURE_WRAP_T);
    assert_eq!(codes::REPEAT, gl::REPEAT);
    assert_eq!(codes::COLOR_BUFFER_BIT, gl::COLOR_BUFFER_BIT);
    assert_eq!(codes::CONSTANT_COLOR, gl::CONSTANT_COLOR);
    assert_eq!(codes::ONE_MINUS_CONSTANT_COLOR, gl::ONE_MINUS_CONSTANT_COLOR);
    assert_eq!(codes::CONSTANT_ALPHA, gl::CONSTANT_ALPHA);
    assert_eq!(codes::ONE_MINUS_CONSTANT_ALPHA, gl::ONE_MINUS_CONSTANT_ALPHA);
    assert_eq!(codes::FUNC_ADD, gl::FUNC_ADD);
    assert_eq!(codes::MIN, gl::MIN);
    assert_eq!(codes::MAX, gl::MAX);
    assert_eq!(codes::FUNC_SUBTRACT, gl::FUNC_SUBTRACT);
    assert_eq!(codes::FUNC_REVERSE_SUBTRACT, gl::FUNC_REVERSE_SUBTRACT);
    assert_eq!(codes::UNSIGNED_SHORT_4_4_4_4, gl::UNSIGNED_SHORT_4_4_4_4);
    assert_eq!(codes::UNSIGNED_SHORT_5_5_5_1, gl::UNSIGNED_SHORT_5_5_5_1);
    assert_eq!(codes::POLYGON_OFFSET_FILL, gl::POLYGON_OFFSET_FILL);
    assert_eq!(codes::RGB8, gl::RGB8);
}

#[test]
fn codes_are_those_of_the_context_3() {
    assert_eq!(codes::RGBA4, gl::RGBA4);
    assert_eq!(codes::RGB5_A1, gl::RGB5_A1);
    assert_eq!(codes::RGBA8, gl::RGBA8);
    assert_eq!(codes::RGB10_A2, gl::RGB10_A2);
    assert_eq!(codes::TEXTURE_3D, gl::TEXTURE_3D);
    assert_eq!(codes::TEXTURE_WRAP_R, gl::TEXTURE_WRAP_R);
    assert_eq!(codes::MAX_3D_TEXTURE_SIZE, gl::MAX_3D_TEXTURE_SIZE);
    assert_eq!(codes::SAMPLE_ALPHA_TO_COVERAGE, gl::SAMPLE_ALPHA_TO_COVERAGE);
    assert_eq!(codes::SAMPLE_COVERAGE, gl::SAMPLE_COVERAGE);
    assert_eq!(codes::MAX_ELEMENTS_VERTICES, gl::MAX_ELEMENTS_VERTICES);
    assert_eq!(codes::MAX_ELEMENTS_INDICES, gl::MAX_ELEMENTS_INDICES);
    assert_eq!(codes::CLAMP_TO_EDGE, gl::CLAMP_TO_EDGE);
    assert_eq!(codes::DEPTH_COMPONENT16, gl::DEPTH_COMPONENT16);
    assert_eq!(codes::DEPTH_COMPONENT24, gl::DEPTH_COMPONENT24);
    assert_eq!(codes::DEPTH_STENCIL_ATTACHMENT, gl::DEPTH_STENCIL_ATTACHMENT);
    assert_eq!(codes::RG, gl::RG);
    assert_eq!(codes::RG_INTEGER, gl::RG_INTEGER);
    assert_eq!(codes::R8, gl::R8);
    assert_eq!(codes::RG8, gl::RG8);
    assert_eq!(codes::R16F, gl::R16F);
    assert_eq!(codes::R32F, gl::R32F);
    assert_eq!(codes::RG16F, gl::RG16F);
    assert_eq!(codes::RG32F, gl::RG32F);
    assert_eq!(codes::R8I, gl::R8I);
    assert_eq!(codes::R8UI, gl::R8UI);
    assert_eq!(codes::R16I, gl::R16I);
    assert_eq!(codes::R16UI, gl::R16UI);
    assert_eq!(codes::R32I, gl::R32I);
    assert_eq!(codes::R32UI, gl::R32UI);
    assert_eq!(codes::RG8I, gl::RG8I);
    assert_eq!(codes::RG8UI, gl::RG8UI);
    assert_eq!(codes::RG16I, gl::RG16I);
    assert_eq!(codes::RG16UI, gl::RG16UI);
    assert_eq!(codes::RG32I, gl::RG32I);
    assert_eq!(codes::RG32UI, gl::RG32UI);
    assert_eq!(codes::UNSIGNED_SHORT_5_6_5, gl::UNSIGNED_SHORT_5_6_5);
    assert_eq!(codes::UNSIGNED_INT_2_10_10_10_REV, gl::UNSIGNED_INT_2_10_10_10_REV);
    assert_eq!(codes::MIRRORED_REPEAT, gl::MIRRORED_REPEAT);
    assert_eq!(codes::TEXTURE0, gl::TEXTURE0);
    assert_eq!(codes::DEPTH_STENCIL, gl::DEPTH_STENCIL);
}

#[test]
fn codes_are_those_of_the_context_4() {
    assert_eq!(codes::UNSIGNED_INT_24_8, gl::UNSIGNED_INT_24_8);
    assert_eq!(codes::MAX_TEXTURE_LOD_BIAS, gl::MAX_TEXTURE_LOD_BIAS);
    assert_eq!(codes::INCR_WRAP, gl::INCR_WRAP);
    assert_eq!(codes::DECR_WRAP, gl::DECR_WRAP);
    assert_eq!(codes::TEXTURE_CUBE_MAP, gl::TEXTURE_CUBE_MAP);
    assert_eq!(codes::RGBA32F, gl::RGBA32F);
    assert_eq!(codes::RGB32F, gl::RGB32F);
    assert_eq!(codes::RGBA16F, gl::RGBA16F);
    assert_eq!(codes::RGB16F, gl::RGB16F);
    assert_eq!(codes::MAX_DRAW_BUFFERS, gl::MAX_DRAW_BUFFERS);
    assert_eq!(codes::ARRAY_BUFFER, gl::ARRAY_BUFFER);
    assert_eq!(codes::ELEMENT_ARRAY_BUFFER, gl::ELEMENT_ARRAY_BUFFER);
    assert_eq!(codes::STREAM_DRAW, gl::STREAM_DRAW);
    assert_eq!(codes::STREAM_READ, gl::STREAM_READ);
    assert_eq!(codes::STREAM_COPY, gl::STREAM_COPY);
    assert_eq!(codes::STATIC_DRAW, gl::STATIC_DRAW);
    assert_eq!(codes::STATIC_READ, gl::STATIC_READ);
    assert_eq!(codes::STATIC_COPY, gl::STATIC_COPY);
    assert_eq!(codes::DYNAMIC_DRAW, gl::DYNAMIC_DRAW);
    assert_eq!(codes::DYNAMIC_READ, gl::DYNAMIC_READ);
    assert_eq!(codes::DYNAMIC_COPY, gl::DYNAMIC_COPY);
    assert_eq!(codes::PIXEL_PACK_BUFFER, gl::PIXEL_PACK_BUFFER);
    assert_eq!(codes::PIXEL_UNPACK_BUFFER, gl::PIXEL_UNPACK_BUFFER);
    assert_eq!(codes::DEPTH24_STENCIL8, gl::DEPTH24_STENCIL8);
    assert_eq!(codes::MAX_ARRAY_TEXTURE_LAYERS, gl::MAX_ARRAY_TEXTURE_LAYERS);
    assert_eq!(codes::MIN_PROGRAM_TEXEL_OFFSET, gl::MIN_PROGRAM_TEXEL_OFFSET);
    assert_eq!(codes::MAX_PROGRAM_TEXEL_OFFSET, gl::MAX_PROGRAM_TEXEL_OFFSET);
    assert_eq!(codes::UNIFORM_BUFFER, gl::UNIFORM_BUFFER);
    assert_eq!(codes::MAX_VERTEX_UNIFORM_BLOCKS, gl::MAX_VERTEX_UNIFORM_BLOCKS);
    assert_eq!(codes::MAX_FRAGMENT_UNIFORM_BLOCKS, gl::MAX_FRAGMENT_UNIFORM_BLOCKS);
    assert_eq!(codes::MAX_COMBINED_UNIFORM_BLOCKS, gl::MAX_COMBINED_UNIFORM_BLOCKS);
    assert_eq!(codes::MAX_UNIFORM_BUFFER_BINDINGS, gl::MAX_UNIFORM_BUFFER_BINDINGS);
    assert_eq!(codes::MAX_UNIFORM_BLOCK_SIZE, gl::MAX_UNIFORM_BLOCK_SIZE);
    assert_eq!(codes::MAX_COMBINED_VERTEX_UNIFORM_COMPONENTS, gl::MAX_COMBINED_VERTEX_UNIFORM_COMPONENTS);
    assert_eq!(codes::MAX_COMBINED_FRAGMENT_UNIFORM_COMPONENTS, gl::MAX_COMBINED_FRAGMENT_UNIFORM_COMPONENTS);
    assert_eq!(codes::ACTIVE_UNIFORM_BLOCKS, gl::ACTIVE_UNIFORM_BLOCKS);
    assert_eq!(codes::FRAGMENT_SHADER, gl::FRAGMENT_SHADER);
    assert_eq!(codes::VERTEX_SHADER, gl::VERTEX_SHADER);
    assert_eq!(codes::MAX_FRAGMENT_UNIFORM_COMPONENTS, gl::MAX_FRAGMENT_UNIFORM_COMPONENTS);
    assert_eq!(codes::MAX_VERTEX_UNIFORM_COMPONENTS, gl::MAX_VERTEX_UNIFORM_COMPONENTS);
}

#[test]
fn codes_are_those_of_the_context_5() {
    assert_eq!(codes::MAX_VARYING_COMPONENTS, gl::MAX_VARYING_COMPONENTS);
    assert_eq!(codes::MAX_VERTEX_TEXTURE_IMAGE_UNITS, gl::MAX_VERTEX_TEXTURE_IMAGE_UNITS);
    assert_eq!(codes::DELETE_STATUS, gl::DELETE_STATUS);
    assert_eq!(codes::LINK_STATUS, gl::LINK_STATUS);
    assert_eq!(codes::VALIDATE_STATUS, gl::VALIDATE_STATUS);
    assert_eq!(codes::ATTACHED_SHADERS, gl::ATTACHED_SHADERS);
    assert_eq!(codes::ACTIVE_UNIFORMS, gl::ACTIVE_UNIFORMS);
    assert_eq!(codes::ACTIVE_ATTRIBUTES, gl::ACTIVE_ATTRIBUTES);
    assert_eq!(codes::FRAGMENT_SHADER_DERIVATIVE_HINT, gl::FRAGMENT_SHADER_DERIVATIVE_HINT);
    assert_eq!(codes::TEXTURE_2D_ARRAY, gl::TEXTURE_2D_ARRAY);
    assert_eq!(codes::R11F_G11F_B10F, gl::R11F_G11F_B10F);
    assert_eq!(codes::RGB9_E5, gl::RGB9_E5);
    assert_eq!(codes::SRGB8, gl::SRGB8);
    assert_eq!(codes::SRGB8_ALPHA8, gl::SRGB8_ALPHA8);
    assert_eq!(codes::TRANSFORM_FEEDBACK_BUFFER_MODE, gl::TRANSFORM_FEEDBACK_BUFFER_MODE);
    assert_eq!(codes::MAX_TRANSFORM_FEEDBACK_SEPARATE_COMPONENTS, gl::MAX_TRANSFORM_FEEDBACK_SEPARATE_COMPONENTS);
    assert_eq!(codes::TRANSFORM_FEEDBACK_VARYINGS, gl::TRANSFORM_FEEDBACK_VARYINGS);
    assert_eq!(codes::RASTERIZER_DISCARD, gl::RASTERIZER_DISCARD);
    assert_eq!(codes::MAX_TRANSFORM_FEEDBACK_INTERLEAVED_COMPONENTS, gl::MAX_TRANSFORM_FEEDBACK_INTERLEAVED_COMPONENTS);
    assert_eq!(codes::MAX_TRANSFORM_FEEDBACK_SEPARATE_ATTRIBS, gl::MAX_TRANSFORM_FEEDBACK_SEPARATE_ATTRIBS);
    assert_eq!(codes::TRANSFORM_FEEDBACK_BUFFER, gl::TRANSFORM_FEEDBACK_BUFFER);
    assert_eq!(codes::READ_FRAMEBUFFER, gl::READ_FRAMEBUFFER);
    assert_eq!(codes::DRAW_FRAMEBUFFER, gl::DRAW_FRAMEBUFFER);
    assert_eq!(codes::DEPTH_COMPONENT32F, gl::DEPTH_COMPONENT32F);
    assert_eq!(codes::MAX_COLOR_ATTACHMENTS, gl::MAX_COLOR_ATTACHMENTS);
    assert_eq!(codes::COLOR_ATTACHMENT0, gl::COLOR_ATTACHMENT0);
    assert_eq!(codes::DEPTH_ATTACHMENT, gl::DEPTH_ATTACHMENT);
    assert_eq!(codes::MAX_SAMPLES, gl::MAX_SAMPLES);
    assert_eq!(codes::RGB565, gl::RGB565);
    assert_eq!(codes::MAX_ELEMENT_INDEX, gl::MAX_ELEMENT_INDEX);
    assert_eq!(codes::RGBA32UI, gl::RGBA32UI);
    assert_eq!(codes::RGB32UI, gl::RGB32UI);
    assert_eq!(codes::RGBA16UI, gl::RGBA16UI);
    assert_eq!(codes::RGB16UI, gl::RGB16UI);
    assert_eq!(codes::RGBA8UI, gl::RGBA8UI);
    assert_eq!(codes::RGB8UI, gl::RGB8UI);
    assert_eq!(codes::RGBA32I, gl::RGBA32I);
    assert_eq!(codes::RGB32I, gl::RGB32I);
    assert_eq!(codes::RGBA16I, gl::RGBA16I);
    assert_eq!(codes::RGB16I, gl::RGB16I);
}

#[test]
fn codes_are_those_of_the_context_6() {
    assert_eq!(codes::RGBA8I, gl::RGBA8I);
    assert_eq!(codes::RGB8I, gl::RGB8I);
    assert_eq!(codes::RED_INTEGER, gl::RED_INTEGER);
    assert_eq!(codes::RGB_INTEGER, gl::RGB_INTEGER);
    assert_eq!(codes::RGBA_INTEGER, gl::RGBA_INTEGER);
    assert_eq!(codes::COPY_READ_BUFFER, gl::COPY_READ_BUFFER);
    assert_eq!(codes::COPY_WRITE_BUFFER, gl::COPY_WRITE_BUFFER);
    assert_eq!(codes::R8_SNORM, gl::R8_SNORM);
    assert_eq!(codes::RG8_SNORM, gl::RG8_SNORM);
    assert_eq!(codes::RGB8_SNORM, gl::RGB8_SNORM);
    assert_eq!(codes::RGBA8_SNORM, gl::RGBA8_SNORM);
    assert_eq!(codes::RGB10_A2UI, gl::RGB10_A2UI);
    assert_eq!(codes::MAX_SERVER_WAIT_TIMEOUT, gl::MAX_SERVER_WAIT_TIMEOUT);
    assert_eq!(codes::MAX_VERTEX_OUTPUT_COMPONENTS, gl::MAX_VERTEX_OUTPUT_COMPONENTS);
    assert_eq!(codes::MAX_FRAGMENT_INPUT_COMPONENTS, gl::MAX_FRAGMENT_INPUT_COMPONENTS);
    assert_eq!(codes::MAX_CLIENT_WAIT_TIMEOUT_WEBGL, gl::MAX_CLIENT_WAIT_TIMEOUT_WEBGL);
    assert_eq!(codes::INVALID_INDEX, gl::INVALID_INDEX);
}
