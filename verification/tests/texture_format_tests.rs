use web_sys::WebGl2RenderingContext as gl;
use webgl2_graphics::texture::TextureInternalFormat;

fn upload(format: TextureInternalFormat) -> Option<(u32, u32)> {
    match (format.texture_format(), format.texture_type()) {
        (Some(layout), Some(kind)) => Some((u32::from(layout), u32::from(kind))),
        (None, None) => None,
        _ => panic!("a format has a layout and a type of texels, or neither"),
    }
}

#[test]
fn formats_take_their_texels_in_the_expected_layout() {
    assert_eq!(upload(TextureInternalFormat::R8()), Some((gl::RED, gl::UNSIGNED_BYTE)));
    assert_eq!(upload(TextureInternalFormat::R16F()), Some((gl::RED, gl::HALF_FLOAT)));
    assert_eq!(upload(TextureInternalFormat::R32F()), Some((gl::RED, gl::FLOAT)));
    assert_eq!(upload(TextureInternalFormat::R8UI()), Some((gl::RED_INTEGER, gl::UNSIGNED_BYTE)));
    assert_eq!(upload(TextureInternalFormat::RG8()), Some((gl::RG, gl::UNSIGNED_BYTE)));
    assert_eq!(upload(TextureInternalFormat::RG16F()), Some((gl::RG, gl::HALF_FLOAT)));
    assert_eq!(upload(TextureInternalFormat::RG32F()), Some((gl::RG, gl::FLOAT)));
    assert_eq!(upload(TextureInternalFormat::RG8UI()), Some((gl::RG_INTEGER, gl::UNSIGNED_BYTE)));
    assert_eq!(upload(TextureInternalFormat::RGB8()), Some((gl::RGB, gl::UNSIGNED_BYTE)));
    assert_eq!(upload(TextureInternalFormat::SRGB8()), Some((gl::RGB, gl::UNSIGNED_BYTE)));
    assert_eq!(upload(TextureInternalFormat::RGB565()), Some((gl::RGB, gl::UNSIGNED_SHORT_5_6_5)));
    assert_eq!(upload(TextureInternalFormat::R11F_G11F_B10F()), Some((gl::RGB, gl::HALF_FLOAT)));
    assert_eq!(upload(TextureInternalFormat::RGB9_E5()), Some((gl::RGB, gl::HALF_FLOAT)));
    assert_eq!(upload(TextureInternalFormat::RGB16F()), Some((gl::RGB, gl::HALF_FLOAT)));
    assert_eq!(upload(TextureInternalFormat::RGB32F()), Some((gl::RGB, gl::FLOAT)));
    assert_eq!(upload(TextureInternalFormat::RGB8UI()), Some((gl::RGB_INTEGER, gl::UNSIGNED_BYTE)));
    assert_eq!(upload(TextureInternalFormat::RGBA8()), Some((gl::RGBA, gl::UNSIGNED_BYTE)));
    assert_eq!(upload(TextureInternalFormat::SRGB8_ALPHA8()), Some((gl::RGBA, gl::UNSIGNED_BYTE)));
    assert_eq!(upload(TextureInternalFormat::RGB5_A1()), Some((gl::RGBA, gl::UNSIGNED_SHORT_5_5_5_1)));
    assert_eq!(upload(TextureInternalFormat::RGB10_A2()), Some((gl::RGBA, gl::UNSIGNED_INT_2_10_10_10_REV)));
    assert_eq!(upload(TextureInternalFormat::RGBA4()), Some((gl::RGBA, gl::UNSIGNED_SHORT_4_4_4_4)));
    assert_eq!(upload(TextureInternalFormat::RGBA16F()), Some((gl::RGBA, gl::HALF_FLOAT)));
    assert_eq!(upload(TextureInternalFormat::RGBA32F()), Some((gl::RGBA, gl::FLOAT)));
    assert_eq!(upload(TextureInternalFormat::RGBA8UI()), Some((gl::RGBA_INTEGER, gl::UNSIGNED_BYTE)));
    assert_eq!(upload(TextureInternalFormat::DEPTH_COMPONENT16()), Some((gl::DEPTH_COMPONENT, gl::UNSIGNED_SHORT)));
    assert_eq!(upload(TextureInternalFormat::DEPTH_COMPONENT24()), Some((gl::DEPTH_COMPONENT, gl::UNSIGNED_INT)));
    assert_eq!(upload(TextureInternalFormat::DEPTH_COMPONENT32F()), Some((gl::DEPTH_COMPONENT, gl::FLOAT)));
    assert_eq!(upload(TextureInternalFormat::DEPTH24_STENCIL8()), Some((gl::DEPTH_STENCIL, gl::UNSIGNED_INT_24_8)));
}

#[test]
fn other_formats_take_no_texels() {
    assert_eq!(upload(TextureInternalFormat::R8_SNORM()), None);
    assert_eq!(upload(TextureInternalFormat::RG8_SNORM()), None);
    assert_eq!(upload(TextureInternalFormat::RGB8_SNORM()), None);
    assert_eq!(upload(TextureInternalFormat::RGBA8_SNORM()), None);
    assert_eq!(upload(TextureInternalFormat::RGB10_A2UI()), None);
    assert_eq!(upload(TextureInternalFormat::R8I()), None);
    assert_eq!(upload(TextureInternalFormat::R16I()), None);
    assert_eq!(upload(TextureInternalFormat::R16UI()), None);
    assert_eq!(upload(TextureInternalFormat::R32I()), None);
    assert_eq!(upload(TextureInternalFormat::R32UI()), None);
    assert_eq!(upload(TextureInternalFormat::RG8I()), None);
    assert_eq!(upload(TextureInternalFormat::RG16I()), None);
    assert_eq!(upload(TextureInternalFormat::RG16UI()), None);
    assert_eq!(upload(TextureInternalFormat::RG32I()), None);
    assert_eq!(upload(TextureInternalFormat::RG32UI()), None);
    assert_eq!(upload(TextureInternalFormat::RGB8I()), None);
    assert_eq!(upload(TextureInternalFormat::RGB16I()), None);
    assert_eq!(upload(TextureInternalFormat::RGB16UI()), None);
    assert_eq!(upload(TextureInternalFormat::RGB32I()), None);
    assert_eq!(upload(TextureInternalFormat::RGB32UI()), None);
    assert_eq!(upload(TextureInternalFormat::RGBA8I()), None);
    assert_eq!(upload(TextureInternalFormat::RGBA16I()), None);
    assert_eq!(upload(TextureInternalFormat::RGBA16UI()), None);
    assert_eq!(upload(TextureInternalFormat::RGBA32I()), None);
    assert_eq!(upload(TextureInternalFormat::RGBA32UI()), None);
}
