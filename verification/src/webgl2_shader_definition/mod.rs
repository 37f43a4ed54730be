//! The shader source model and the generator that renders it into GLSL text.

pub mod data_type;
pub mod generator;
pub mod laws;
pub mod model;
pub mod parameter;
pub mod text;

pub use data_type::WebGLDataType;
pub use generator::{
    generate_fragment_stage_str, generate_shader_str_from_single_source,
    generate_vertex_fragment_shader, generate_vertex_stage_str, push_imported_function,
    push_main_function, push_stage_attributes, push_uniform_collection, push_varying,
    GenerateError,
};
pub use parameter::create_fn_param_str;
pub use model::{
    FunctionDefinition, FunctionDefinitionType, FunctionImports, FunctionParameter,
    ParameterQualifier, ShaderAttribute, ShaderSource, ShaderStage, ShaderUniform,
    ShaderUniformBlock, ShaderVarying, UniformCollection,
};
