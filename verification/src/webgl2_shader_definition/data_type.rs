//! The closed set of GLSL value kinds and their canonical tokens.

use vstd::prelude::*;

verus! {

/// A scalar, vector or matrix kind of GLSL ES 3.00, or `void`.
#[derive(Debug, Clone, Copy, PartialEq, Eq, Structural)]
pub enum WebGLDataType {
    Void,
    Bool,
    Int,
    Uint,
    Float,
    Vec2,
    Vec3,
    Vec4,
    BVec2,
    BVec3,
    BVec4,
    IVec2,
    IVec3,
    IVec4,
    UVec2,
    UVec3,
    UVec4,
    Mat2,
    Mat3,
    Mat4,
}

impl WebGLDataType {
    /// The one token that stands for this kind in declarations, parameter
    /// lists and function headers.
    pub open spec fn token(self) -> Seq<char> {
        match self {
            WebGLDataType::Void => "void"@,
            WebGLDataType::Bool => "bool"@,
            WebGLDataType::Int => "int"@,
            WebGLDataType::Uint => "uint"@,
            WebGLDataType::Float => "float"@,
            WebGLDataType::Vec2 => "vec2"@,
            WebGLDataType::Vec3 => "vec3"@,
            WebGLDataType::Vec4 => "vec4"@,
            WebGLDataType::BVec2 => "bvec2"@,
            WebGLDataType::BVec3 => "bvec3"@,
            WebGLDataType::BVec4 => "bvec4"@,
            WebGLDataType::IVec2 => "ivec2"@,
            WebGLDataType::IVec3 => "ivec3"@,
            WebGLDataType::IVec4 => "ivec4"@,
            WebGLDataType::UVec2 => "uvec2"@,
            WebGLDataType::UVec3 => "uvec3"@,
            WebGLDataType::UVec4 => "uvec4"@,
            WebGLDataType::Mat2 => "mat2"@,
            WebGLDataType::Mat3 => "mat3"@,
            WebGLDataType::Mat4 => "mat4"@,
        }
    }

    /// Whether a variable (attribute, varying, uniform, parameter) may have
    /// this kind. Every kind but `void` may.
    pub open spec fn declares_variable(self) -> bool {
        self != WebGLDataType::Void
    }

    /// The canonical token of this kind.
    pub fn as_str(&self) -> (token: &'static str)
        ensures
            token@ == self.token(),
    {
        match self {
            WebGLDataType::Void => "void",
            WebGLDataType::Bool => "bool",
            WebGLDataType::Int => "int",
            WebGLDataType::Uint => "uint",
            WebGLDataType::Float => "float",
            WebGLDataType::Vec2 => "vec2",
            WebGLDataType::Vec3 => "vec3",
            WebGLDataType::Vec4 => "vec4",
            WebGLDataType::BVec2 => "bvec2",
            WebGLDataType::BVec3 => "bvec3",
            WebGLDataType::BVec4 => "bvec4",
            WebGLDataType::IVec2 => "ivec2",
            WebGLDataType::IVec3 => "ivec3",
            WebGLDataType::IVec4 => "ivec4",
            WebGLDataType::UVec2 => "uvec2",
            WebGLDataType::UVec3 => "uvec3",
            WebGLDataType::UVec4 => "uvec4",
            WebGLDataType::Mat2 => "mat2",
            WebGLDataType::Mat3 => "mat3",
            WebGLDataType::Mat4 => "mat4",
        }
    }

    /// Tells whether a variable may be declared with this kind.
    pub fn is_declarable(&self) -> (declarable: bool)
        ensures
            declarable == self.declares_variable(),
    {
        match self {
            WebGLDataType::Void => false,
            _ => true,
        }
    }
}

} // verus!
