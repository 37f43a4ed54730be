//! The numbers by which WebGL2 knows its enumerated values, under the names
//! that the WebGL2 specification gives them.

use vstd::prelude::*;

verus! {

pub const POINTS: u32 = 0x0000;

pub const ZERO: u32 = 0x0000;

pub const LINES: u32 = 0x0001;

pub const ONE: u32 = 0x0001;

pub const LINE_LOOP: u32 = 0x0002;

pub const LINE_STRIP: u32 = 0x0003;

pub const TRIANGLES: u32 = 0x0004;

pub const TRIANGLE_STRIP: u32 = 0x0005;

pub const TRIANGLE_FAN: u32 = 0x0006;

pub const DEPTH_BUFFER_BIT: u32 = 0x0100;

pub const NEVER: u32 = 0x0200;

pub const LESS: u32 = 0x0201;

pub const EQUAL: u32 = 0x0202;

pub const LEQUAL: u32 = 0x0203;

pub const GREATER: u32 = 0x0204;

pub const NOTEQUAL: u32 = 0x0205;

pub const GEQUAL: u32 = 0x0206;

pub const ALWAYS: u32 = 0x0207;

pub const SRC_COLOR: u32 = 0x0300;

pub const ONE_MINUS_SRC_COLOR: u32 = 0x0301;

pub const SRC_ALPHA: u32 = 0x0302;

pub const ONE_MINUS_SRC_ALPHA: u32 = 0x0303;

pub const DST_ALPHA: u32 = 0x0304;

pub const ONE_MINUS_DST_ALPHA: u32 = 0x0305;

pub const DST_COLOR: u32 = 0x0306;

pub const ONE_MINUS_DST_COLOR: u32 = 0x0307;

pub const SRC_ALPHA_SATURATE: u32 = 0x0308;

pub const STENCIL_BUFFER_BIT: u32 = 0x0400;

pub const FRONT: u32 = 0x0404;

pub const BACK: u32 = 0x0405;

pub const FRONT_AND_BACK: u32 = 0x0408;

pub const CW: u32 = 0x0900;

pub const CCW: u32 = 0x0901;

pub const CULL_FACE: u32 = 0x0B44;

pub const DEPTH_TEST: u32 = 0x0B71;

pub const STENCIL_TEST: u32 = 0x0B90;

pub const DITHER: u32 = 0x0BD0;

pub const BLEND: u32 = 0x0BE2;

pub const SCISSOR_TEST: u32 = 0x0C11;

pub const TEXTURE_2D: u32 = 0x0DE1;

pub const BYTE: u32 = 0x1400;

pub const UNSIGNED_BYTE: u32 = 0x1401;

pub const SHORT: u32 = 0x1402;

pub const UNSIGNED_SHORT: u32 = 0x1403;

pub const INT: u32 = 0x1404;

pub const UNSIGNED_INT: u32 = 0x1405;

pub const FLOAT: u32 = 0x1406;

pub const HALF_FLOAT: u32 = 0x140B;

pub const INVERT: u32 = 0x150A;

pub const DEPTH_COMPONENT: u32 = 0x1902;

pub const RED: u32 = 0x1903;

pub const RGB: u32 = 0x1907;

pub const RGBA: u32 = 0x1908;

pub const KEEP: u32 = 0x1E00;

pub const REPLACE: u32 = 0x1E01;

pub const INCR: u32 = 0x1E02;

pub const DECR: u32 = 0x1E03;

pub const NEAREST: u32 = 0x2600;

pub const LINEAR: u32 = 0x2601;

pub const NEAREST_MIPMAP_NEAREST: u32 = 0x2700;

pub const LINEAR_MIPMAP_NEAREST: u32 = 0x2701;

pub const NEAREST_MIPMAP_LINEAR: u32 = 0x2702;

pub const LINEAR_MIPMAP_LINEAR: u32 = 0x2703;

pub const TEXTURE_WRAP_S: u32 = 0x2802;

pub const TEXTURE_WRAP_T: u32 = 0x2803;

pub const REPEAT: u32 = 0x2901;

pub const COLOR_BUFFER_BIT: u32 = 0x4000;

pub const CONSTANT_COLOR: u32 = 0x8001;

pub const ONE_MINUS_CONSTANT_COLOR: u32 = 0x8002;

pub const CONSTANT_ALPHA: u32 = 0x8003;

pub const ONE_MINUS_CONSTANT_ALPHA: u32 = 0x8004;

pub const FUNC_ADD: u32 = 0x8006;

pub const MIN: u32 = 0x8007;

pub const MAX: u32 = 0x8008;

pub const FUNC_SUBTRACT: u32 = 0x800A;

pub const FUNC_REVERSE_SUBTRACT: u32 = 0x800B;

pub const UNSIGNED_SHORT_4_4_4_4: u32 = 0x8033;

pub const UNSIGNED_SHORT_5_5_5_1: u32 = 0x8034;

pub const POLYGON_OFFSET_FILL: u32 = 0x8037;

pub const RGB8: u32 = 0x8051;

pub const RGBA4: u32 = 0x8056;

pub const RGB5_A1: u32 = 0x8057;

pub const RGBA8: u32 = 0x8058;

pub const RGB10_A2: u32 = 0x8059;

pub const TEXTURE_3D: u32 = 0x806F;

pub const TEXTURE_WRAP_R: u32 = 0x8072;

pub const MAX_3D_TEXTURE_SIZE: u32 = 0x8073;

pub const SAMPLE_ALPHA_TO_COVERAGE: u32 = 0x809E;

pub const SAMPLE_COVERAGE: u32 = 0x80A0;

pub const MAX_ELEMENTS_VERTICES: u32 = 0x80E8;

pub const MAX_ELEMENTS_INDICES: u32 = 0x80E9;

pub const CLAMP_TO_EDGE: u32 = 0x812F;

pub const DEPTH_COMPONENT16: u32 = 0x81A5;

pub const DEPTH_COMPONENT24: u32 = 0x81A6;

pub const DEPTH_STENCIL_ATTACHMENT: u32 = 0x821A;

pub const RG: u32 = 0x8227;

pub const RG_INTEGER: u32 = 0x8228;

pub const R8: u32 = 0x8229;

pub const RG8: u32 = 0x822B;

pub const R16F: u32 = 0x822D;

pub const R32F: u32 = 0x822E;

pub const RG16F: u32 = 0x822F;

pub const RG32F: u32 = 0x8230;

pub const R8I: u32 = 0x8231;

pub const R8UI: u32 = 0x8232;

pub const R16I: u32 = 0x8233;

pub const R16UI: u32 = 0x8234;

pub const R32I: u32 = 0x8235;

pub const R32UI: u32 = 0x8236;

pub const RG8I: u32 = 0x8237;

pub const RG8UI: u32 = 0x8238;

pub const RG16I: u32 = 0x8239;

pub const RG16UI: u32 = 0x823A;

pub const RG32I: u32 = 0x823B;

pub const RG32UI: u32 = 0x823C;

pub const UNSIGNED_SHORT_5_6_5: u32 = 0x8363;

pub const UNSIGNED_INT_2_10_10_10_REV: u32 = 0x8368;

pub const MIRRORED_REPEAT: u32 = 0x8370;

pub const TEXTURE0: u32 = 0x84C0;

pub const DEPTH_STENCIL: u32 = 0x84F9;

pub const UNSIGNED_INT_24_8: u32 = 0x84FA;

pub const MAX_TEXTURE_LOD_BIAS: u32 = 0x84FD;

pub const INCR_WRAP: u32 = 0x8507;

pub const DECR_WRAP: u32 = 0x8508;

pub const TEXTURE_CUBE_MAP: u32 = 0x8513;

pub const RGBA32F: u32 = 0x8814;

pub const RGB32F: u32 = 0x8815;

pub const RGBA16F: u32 = 0x881A;

pub const RGB16F: u32 = 0x881B;

pub const MAX_DRAW_BUFFERS: u32 = 0x8824;

pub const ARRAY_BUFFER: u32 = 0x8892;

pub const ELEMENT_ARRAY_BUFFER: u32 = 0x8893;

pub const STREAM_DRAW: u32 = 0x88E0;

pub const STREAM_READ: u32 = 0x88E1;

pub const STREAM_COPY: u32 = 0x88E2;

pub const STATIC_DRAW: u32 = 0x88E4;

pub const STATIC_READ: u32 = 0x88E5;

pub const STATIC_COPY: u32 = 0x88E6;

pub const DYNAMIC_DRAW: u32 = 0x88E8;

pub const DYNAMIC_READ: u32 = 0x88E9;

pub const DYNAMIC_COPY: u32 = 0x88EA;

pub const PIXEL_PACK_BUFFER: u32 = 0x88EB;

pub const PIXEL_UNPACK_BUFFER: u32 = 0x88EC;

pub const DEPTH24_STENCIL8: u32 = 0x88F0;

pub const MAX_ARRAY_TEXTURE_LAYERS: u32 = 0x88FF;

pub const MIN_PROGRAM_TEXEL_OFFSET: u32 = 0x8904;

pub const MAX_PROGRAM_TEXEL_OFFSET: u32 = 0x8905;

pub const UNIFORM_BUFFER: u32 = 0x8A11;

pub const MAX_VERTEX_UNIFORM_BLOCKS: u32 = 0x8A2B;

pub const MAX_FRAGMENT_UNIFORM_BLOCKS: u32 = 0x8A2D;

pub const MAX_COMBINED_UNIFORM_BLOCKS: u32 = 0x8A2E;

pub const MAX_UNIFORM_BUFFER_BINDINGS: u32 = 0x8A2F;

pub const MAX_UNIFORM_BLOCK_SIZE: u32 = 0x8A30;

pub const MAX_COMBINED_VERTEX_UNIFORM_COMPONENTS: u32 = 0x8A31;

pub const MAX_COMBINED_FRAGMENT_UNIFORM_COMPONENTS: u32 = 0x8A33;

pub const ACTIVE_UNIFORM_BLOCKS: u32 = 0x8A36;

pub const FRAGMENT_SHADER: u32 = 0x8B30;

pub const VERTEX_SHADER: u32 = 0x8B31;

pub const MAX_FRAGMENT_UNIFORM_COMPONENTS: u32 = 0x8B49;

pub const MAX_VERTEX_UNIFORM_COMPONENTS: u32 = 0x8B4A;

pub const MAX_VARYING_COMPONENTS: u32 = 0x8B4B;

pub const MAX_VERTEX_TEXTURE_IMAGE_UNITS: u32 = 0x8B4C;

pub const DELETE_STATUS: u32 = 0x8B80;

pub const LINK_STATUS: u32 = 0x8B82;

pub const VALIDATE_STATUS: u32 = 0x8B83;

pub const ATTACHED_SHADERS: u32 = 0x8B85;

pub const ACTIVE_UNIFORMS: u32 = 0x8B86;

pub const ACTIVE_ATTRIBUTES: u32 = 0x8B89;

pub const FRAGMENT_SHADER_DERIVATIVE_HINT: u32 = 0x8B8B;

pub const TEXTURE_2D_ARRAY: u32 = 0x8C1A;

pub const R11F_G11F_B10F: u32 = 0x8C3A;

pub const RGB9_E5: u32 = 0x8C3D;

pub const SRGB8: u32 = 0x8C41;

pub const SRGB8_ALPHA8: u32 = 0x8C43;

pub const TRANSFORM_FEEDBACK_BUFFER_MODE: u32 = 0x8C7F;

pub const MAX_TRANSFORM_FEEDBACK_SEPARATE_COMPONENTS: u32 = 0x8C80;

pub const TRANSFORM_FEEDBACK_VARYINGS: u32 = 0x8C83;

pub const RASTERIZER_DISCARD: u32 = 0x8C89;

pub const MAX_TRANSFORM_FEEDBACK_INTERLEAVED_COMPONENTS: u32 = 0x8C8A;

pub const MAX_TRANSFORM_FEEDBACK_SEPARATE_ATTRIBS: u32 = 0x8C8B;

pub const TRANSFORM_FEEDBACK_BUFFER: u32 = 0x8C8E;

pub const READ_FRAMEBUFFER: u32 = 0x8CA8;

pub const DRAW_FRAMEBUFFER: u32 = 0x8CA9;

pub const DEPTH_COMPONENT32F: u32 = 0x8CAC;

pub const MAX_COLOR_ATTACHMENTS: u32 = 0x8CDF;

pub const COLOR_ATTACHMENT0: u32 = 0x8CE0;

pub const DEPTH_ATTACHMENT: u32 = 0x8D00;

pub const MAX_SAMPLES: u32 = 0x8D57;

pub const RGB565: u32 = 0x8D62;

pub const MAX_ELEMENT_INDEX: u32 = 0x8D6B;

pub const RGBA32UI: u32 = 0x8D70;

pub const RGB32UI: u32 = 0x8D71;

pub const RGBA16UI: u32 = 0x8D76;

pub const RGB16UI: u32 = 0x8D77;

pub const RGBA8UI: u32 = 0x8D7C;

pub const RGB8UI: u32 = 0x8D7D;

pub const RGBA32I: u32 = 0x8D82;

pub const RGB32I: u32 = 0x8D83;

pub const RGBA16I: u32 = 0x8D88;

pub const RGB16I: u32 = 0x8D89;

pub const RGBA8I: u32 = 0x8D8E;

pub const RGB8I: u32 = 0x8D8F;

pub const RED_INTEGER: u32 = 0x8D94;

pub const RGB_INTEGER: u32 = 0x8D98;

pub const RGBA_INTEGER: u32 = 0x8D99;

pub const COPY_READ_BUFFER: u32 = 0x8F36;

pub const COPY_WRITE_BUFFER: u32 = 0x8F37;

pub const R8_SNORM: u32 = 0x8F94;

pub const RG8_SNORM: u32 = 0x8F95;

pub const RGB8_SNORM: u32 = 0x8F96;

pub const RGBA8_SNORM: u32 = 0x8F97;

pub const RGB10_A2UI: u32 = 0x906F;

pub const MAX_SERVER_WAIT_TIMEOUT: u32 = 0x9111;

pub const MAX_VERTEX_OUTPUT_COMPONENTS: u32 = 0x9122;

pub const MAX_FRAGMENT_INPUT_COMPONENTS: u32 = 0x9125;

pub const MAX_CLIENT_WAIT_TIMEOUT_WEBGL: u32 = 0x9247;

pub const INVALID_INDEX: u32 = 0xFFFFFFFF;

} // verus!
