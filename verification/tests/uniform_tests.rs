use webgl2_graphics::shader_program::{
    uniform_block_index, FloatUniformShape, GlUniformShape, IntegerUniformShape, ProgramUniforms, UniformIndex,
    UniformState,
};
use webgl2_graphics::webgl2_shader_definition::WebGLDataType;

const SCALAR: GlUniformShape = GlUniformShape::Float(FloatUniformShape::Scalar);
const MAT4: GlUniformShape = GlUniformShape::Float(FloatUniformShape::Mat4);
const IVEC3: GlUniformShape = GlUniformShape::Int(IntegerUniformShape::Vec3);
const UVEC3: GlUniformShape = GlUniformShape::UInt(IntegerUniformShape::Vec3);

fn name(text: &str) -> String {
    text.to_string()
}

#[test]
fn kinds_have_the_shape_of_their_values() {
    assert_eq!(GlUniformShape::from_kind(WebGLDataType::Float), Some(SCALAR));
    assert_eq!(
        GlUniformShape::from_kind(WebGLDataType::Vec2),
        Some(GlUniformShape::Float(FloatUniformShape::Vec2))
    );
    assert_eq!(
        GlUniformShape::from_kind(WebGLDataType::Mat3),
        Some(GlUniformShape::Float(FloatUniformShape::Mat3))
    );
    assert_eq!(GlUniformShape::from_kind(WebGLDataType::Mat4), Some(MAT4));
    assert_eq!(
        GlUniformShape::from_kind(WebGLDataType::Int),
        Some(GlUniformShape::Int(IntegerUniformShape::Scalar))
    );
    assert_eq!(GlUniformShape::from_kind(WebGLDataType::IVec3), Some(IVEC3));
    assert_eq!(
        GlUniformShape::from_kind(WebGLDataType::Uint),
        Some(GlUniformShape::UInt(IntegerUniformShape::Scalar))
    );
    assert_eq!(GlUniformShape::from_kind(WebGLDataType::UVec3), Some(UVEC3));
    assert_eq!(
        GlUniformShape::from_kind(WebGLDataType::UVec4),
        Some(GlUniformShape::UInt(IntegerUniformShape::Vec4))
    );
    for kind in [
        WebGLDataType::Void,
        WebGLDataType::Bool,
        WebGLDataType::BVec2,
        WebGLDataType::BVec3,
        WebGLDataType::BVec4,
    ] {
        assert_eq!(GlUniformShape::from_kind(kind), None);
    }
}

#[test]
fn shapes_are_equal_variants_of_themselves_only() {
    assert!(SCALAR.equal_variant(&SCALAR));
    assert!(!SCALAR.equal_variant(&MAT4));
    assert!(!IVEC3.equal_variant(&UVEC3));
    assert!(UVEC3.equal_variant(&GlUniformShape::UInt(IntegerUniformShape::Vec3)));
}

#[test]
fn uniforms_are_numbered_in_the_order_of_insertion() {
    let mut uniforms = ProgramUniforms::new();
    assert_eq!(uniforms.len(), 0);
    assert_eq!(uniforms.insert(&name("time"), SCALAR), UniformIndex(0));
    assert_eq!(uniforms.insert(&name("mvp"), MAT4), UniformIndex(1));
    assert_eq!(uniforms.insert(&name("cell"), IVEC3), UniformIndex(2));
    assert_eq!(uniforms.len(), 3);
    assert_eq!(uniforms.get_uniform_index(&name("mvp")), Some(UniformIndex(1)));
    assert_eq!(uniforms.get_uniform_index(&name("absent")), None);
    assert_eq!(uniforms.get(UniformIndex(2)), Some(UniformState { shape: IVEC3, in_program: false }));
    assert_eq!(uniforms.get(UniformIndex(3)), None);
    assert!(uniforms.contains_index(UniformIndex(2)));
    assert!(!uniforms.contains_index(UniformIndex(3)));
}

#[test]
fn a_name_stands_for_the_uniform_inserted_last() {
    let mut uniforms = ProgramUniforms::new();
    uniforms.insert(&name("a"), SCALAR);
    uniforms.insert(&name("b"), SCALAR);
    assert_eq!(uniforms.insert(&name("a"), MAT4), UniformIndex(2));
    assert_eq!(uniforms.get_uniform_index(&name("a")), Some(UniformIndex(2)));
    assert_eq!(uniforms.get_uniform_index(&name("b")), Some(UniformIndex(1)));
    assert_eq!(uniforms.len(), 3);
    assert_eq!(uniforms.get(UniformIndex(0)).unwrap().shape, SCALAR);
}

#[test]
fn a_value_is_uploaded_once_after_it_is_set() {
    let mut uniforms = ProgramUniforms::new();
    let time = uniforms.insert(&name("time"), SCALAR);
    assert!(uniforms.push_uniform(time));
    assert!(!uniforms.push_uniform(time));
    assert!(uniforms.set_uniform(time, SCALAR));
    assert_eq!(uniforms.get(time), Some(UniformState { shape: SCALAR, in_program: false }));
    assert!(uniforms.push_uniform(time));
    assert!(!uniforms.push_uniform(time));
}

#[test]
fn a_value_of_another_shape_is_not_taken() {
    let mut uniforms = ProgramUniforms::new();
    let time = uniforms.insert(&name("time"), SCALAR);
    assert!(uniforms.push_uniform(time));
    assert!(!uniforms.set_uniform(time, MAT4));
    assert_eq!(uniforms.get(time), Some(UniformState { shape: SCALAR, in_program: true }));
    assert!(!uniforms.push_uniform(time));
}

#[test]
fn uniforms_are_found_by_name() {
    let mut uniforms = ProgramUniforms::new();
    uniforms.insert(&name("time"), SCALAR);
    uniforms.insert(&name("cell"), IVEC3);
    assert_eq!(uniforms.push_uniform_by_name(&name("cell")), Some((UniformIndex(1), true)));
    assert_eq!(uniforms.push_uniform_by_name(&name("cell")), Some((UniformIndex(1), false)));
    assert_eq!(uniforms.push_uniform_by_name(&name("absent")), None);
    assert_eq!(uniforms.set_uniform_by_name(&name("cell"), IVEC3), Some(true));
    assert_eq!(uniforms.set_uniform_by_name(&name("cell"), UVEC3), Some(false));
    assert_eq!(uniforms.set_uniform_by_name(&name("absent"), IVEC3), None);
    assert_eq!(uniforms.push_uniform_by_name(&name("cell")), Some((UniformIndex(1), true)));
}

#[test]
fn all_pending_uniforms_are_listed_in_order() {
    let mut uniforms = ProgramUniforms::new();
    let a = uniforms.insert(&name("a"), SCALAR);
    let b = uniforms.insert(&name("b"), MAT4);
    let c = uniforms.insert(&name("c"), IVEC3);
    assert!(uniforms.push_uniform(b));
    assert_eq!(uniforms.push_all_uniforms(), vec![a, c]);
    assert_eq!(uniforms.push_all_uniforms(), vec![]);
    assert!(uniforms.set_uniform(b, MAT4));
    assert_eq!(uniforms.push_all_uniforms(), vec![b]);
    assert_eq!(uniforms.get(a), Some(UniformState { shape: SCALAR, in_program: true }));
    assert_eq!(ProgramUniforms::new().push_all_uniforms(), vec![]);
}

#[test]
fn the_invalid_index_is_no_index() {
    assert_eq!(uniform_block_index(0), Some(0));
    assert_eq!(uniform_block_index(3), Some(3));
    assert_eq!(uniform_block_index(u32::MAX - 1), Some(u32::MAX - 1));
    assert_eq!(uniform_block_index(web_sys::WebGl2RenderingContext::INVALID_INDEX), None);
}
