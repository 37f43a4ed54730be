use webgl2_graphics::webgl2_shader_definition::{
    generate_fragment_stage_str, generate_shader_str_from_single_source,
    generate_vertex_fragment_shader, generate_vertex_stage_str, push_imported_function,
    push_main_function, push_stage_attributes, push_uniform_collection, push_varying,
    FunctionDefinition, FunctionDefinitionType, GenerateError, ShaderAttribute, ShaderSource,
    ShaderStage, ShaderUniform, ShaderUniformBlock, ShaderVarying, UniformCollection,
    WebGLDataType,
};

const HEADER: &str = "#version 300 es\nprecision highp float;\n";

fn attribute(layout_loc: u32, kind: WebGLDataType, name: &str) -> ShaderAttribute {
    ShaderAttribute { layout_loc, kind, name: name.to_string() }
}

fn varying(interp: Option<&str>, kind: WebGLDataType, name: &str) -> ShaderVarying {
    ShaderVarying { interp: interp.map(|q| q.to_string()), kind, name: name.to_string() }
}

fn uniform(kind: WebGLDataType, name: &str) -> ShaderUniform {
    ShaderUniform { kind, name: name.to_string() }
}

fn inline(name: &str, return_type: WebGLDataType, parameters: &str, body: &str) -> FunctionDefinition {
    FunctionDefinition {
        name: name.to_string(),
        definition: FunctionDefinitionType::InlineFn {
            return_type,
            parameters: parameters.to_string(),
            body: body.to_string(),
        },
    }
}

fn import(name: &str, path: &str) -> FunctionDefinition {
    FunctionDefinition {
        name: name.to_string(),
        definition: FunctionDefinitionType::ImportFn { path: path.to_string() },
    }
}

fn stage(main_fn: &str) -> ShaderStage {
    ShaderStage {
        import_fn: vec![],
        main_fn: main_fn.to_string(),
        attributes: vec![],
        uniform_collection: UniformCollection::new(),
    }
}

fn empty_source() -> ShaderSource {
    ShaderSource {
        name: "empty".to_string(),
        varyings: vec![],
        common_uniforms: UniformCollection::new(),
        imported_functions: vec![],
        vertex_shader: stage(""),
        fragment_shader: stage(""),
    }
}

fn minimal_source() -> ShaderSource {
    let mut source = empty_source();
    source.name = "minimal".to_string();
    source.varyings = vec![varying(None, WebGLDataType::Vec4, "v_color")];
    source.common_uniforms.uniforms = vec![uniform(WebGLDataType::Mat4, "mvp")];
    source.vertex_shader.main_fn = "gl_Position = mvp * vec4(position, 1.0);".to_string();
    source.vertex_shader.attributes = vec![attribute(0, WebGLDataType::Vec3, "position")];
    source.fragment_shader.main_fn = "frag_color = v_color;".to_string();
    source.fragment_shader.attributes = vec![ShaderAttribute::get_default_frag_attribute()];
    source
}

fn ordered_source() -> ShaderSource {
    let mut source = empty_source();
    source.varyings = vec![
        varying(None, WebGLDataType::Vec3, "v_zeta"),
        varying(Some("flat"), WebGLDataType::Int, "v_alpha"),
        varying(Some("smooth"), WebGLDataType::Vec2, "v_mid"),
    ];
    source.common_uniforms = UniformCollection {
        uniforms: vec![
            uniform(WebGLDataType::Float, "u_time"),
            uniform(WebGLDataType::Vec2, "u_area"),
            uniform(WebGLDataType::Mat3, "u_basis"),
        ],
        uniform_blocks: vec![
            ShaderUniformBlock {
                binding_number: 0,
                name: "Camera".to_string(),
                uniforms: vec![
                    uniform(WebGLDataType::Mat4, "view"),
                    uniform(WebGLDataType::Mat4, "projection"),
                    uniform(WebGLDataType::Vec3, "eye"),
                ],
            },
            ShaderUniformBlock {
                binding_number: 1,
                name: "Lights".to_string(),
                uniforms: vec![uniform(WebGLDataType::Vec4, "sun")],
            },
        ],
    };
    source.vertex_shader.attributes = vec![
        attribute(2, WebGLDataType::Vec3, "normal"),
        attribute(0, WebGLDataType::Vec3, "position"),
        attribute(1, WebGLDataType::Vec2, "uv"),
    ];
    source.vertex_shader.uniform_collection.uniforms = vec![uniform(WebGLDataType::Mat4, "u_model")];
    source.fragment_shader.attributes = vec![
        attribute(1, WebGLDataType::Vec4, "bright"),
        attribute(0, WebGLDataType::Vec4, "frag_color"),
        attribute(2, WebGLDataType::UVec4, "ids"),
    ];
    source
}

fn positions(text: &str, parts: &[&str]) -> Vec<usize> {
    parts
        .iter()
        .map(|part| match text.find(part) {
            Some(at) => at,
            None => panic!("{:?} does not occur in {:?}", part, text),
        })
        .collect()
}

fn assert_increasing(found: &[usize]) {
    for pair in found.windows(2) {
        assert!(pair[0] < pair[1], "{:?} is not increasing", found);
    }
}

#[test]
fn minimal_source_generates_both_stages() {
    let source = minimal_source();
    let functions: Vec<FunctionDefinition> = Vec::new();
    let (vertex, fragment) = generate_vertex_fragment_shader(&source, &functions).unwrap();
    assert_eq!(
        vertex,
        "#version 300 es\nprecision highp float;\n\
         layout(location = 0) in vec3 position;\n\
         out vec4 v_color;\n\
         uniform mat4 mvp;\n\
         void main() {\ngl_Position = mvp * vec4(position, 1.0);\n}"
    );
    assert_eq!(
        fragment,
        "#version 300 es\nprecision highp float;\n\
         layout(location = 0) out vec4 frag_color;\n\
         in vec4 v_color;\n\
         uniform mat4 mvp;\n\
         void main() {\nfrag_color = v_color;\n}"
    );
    assert_eq!(generate_vertex_stage_str(&source, &functions).unwrap(), vertex);
    assert_eq!(generate_fragment_stage_str(&source, &functions).unwrap(), fragment);
}

#[test]
fn minimal_source_holds_the_expected_lines() {
    let source = minimal_source();
    let (vertex, fragment) = generate_vertex_fragment_shader(&source, &Vec::new()).unwrap();
    let vertex_lines: Vec<&str> = vertex.lines().collect();
    assert!(vertex_lines.contains(&"layout(location = 0) in vec3 position;"));
    assert!(vertex_lines.contains(&"out vec4 v_color;"));
    assert!(vertex_lines.contains(&"uniform mat4 mvp;"));
    assert!(vertex_lines.contains(&"void main() {"));
    assert!(vertex.ends_with("\n}"));
    let fragment_lines: Vec<&str> = fragment.lines().collect();
    assert!(fragment_lines.contains(&"in vec4 v_color;"));
    assert!(fragment_lines.contains(&"uniform mat4 mvp;"));
    assert!(fragment_lines.contains(&"layout(location = 0) out vec4 frag_color;"));
    assert!(fragment_lines.contains(&"void main() {"));
    assert!(fragment.ends_with("\n}"));
}

#[test]
fn every_stage_begins_with_the_header() {
    let (vertex, fragment) = generate_vertex_fragment_shader(&empty_source(), &Vec::new()).unwrap();
    assert_eq!(vertex, format!("{}void main() {{\n\n}}", HEADER));
    assert_eq!(fragment, vertex);
}

#[test]
fn generating_twice_gives_the_same_texts() {
    let source = ordered_source();
    let functions = vec![inline("f", WebGLDataType::Float, "float x", "return x;")];
    let first = generate_vertex_fragment_shader(&source, &functions).unwrap();
    let second = generate_vertex_fragment_shader(&source, &functions).unwrap();
    assert_eq!(first.0.as_bytes(), second.0.as_bytes());
    assert_eq!(first.1.as_bytes(), second.1.as_bytes());
    let copy = source.clone();
    let third = generate_vertex_fragment_shader(&copy, &functions.clone()).unwrap();
    assert_eq!(first, third);
}

#[test]
fn attributes_keep_their_declaration_order() {
    let source = ordered_source();
    let (vertex, fragment) = generate_vertex_fragment_shader(&source, &Vec::new()).unwrap();
    assert_increasing(&positions(
        &vertex,
        &[
            "layout(location = 2) in vec3 normal;\n",
            "layout(location = 0) in vec3 position;\n",
            "layout(location = 1) in vec2 uv;\n",
        ],
    ));
    assert_increasing(&positions(
        &fragment,
        &[
            "layout(location = 1) out vec4 bright;\n",
            "layout(location = 0) out vec4 frag_color;\n",
            "layout(location = 2) out uvec4 ids;\n",
        ],
    ));
}

#[test]
fn varyings_keep_their_declaration_order() {
    let source = ordered_source();
    let (vertex, fragment) = generate_vertex_fragment_shader(&source, &Vec::new()).unwrap();
    assert_increasing(&positions(
        &vertex,
        &["out vec3 v_zeta;\n", "flat out int v_alpha;\n", "smooth out vec2 v_mid;\n"],
    ));
    assert_increasing(&positions(
        &fragment,
        &["in vec3 v_zeta;\n", "flat in int v_alpha;\n", "smooth in vec2 v_mid;\n"],
    ));
}

#[test]
fn uniforms_keep_their_declaration_order() {
    let source = ordered_source();
    let (vertex, fragment) = generate_vertex_fragment_shader(&source, &Vec::new()).unwrap();
    for text in [&vertex, &fragment] {
        assert_increasing(&positions(
            text,
            &[
                "layout(std140) uniform Camera {\n",
                " mat4 view;\n",
                " mat4 projection;\n",
                " vec3 eye;\n",
                "};\n",
                "layout(std140) uniform Lights {\n",
                " vec4 sun;\n",
                "uniform float u_time;\n",
                "uniform vec2 u_area;\n",
                "uniform mat3 u_basis;\n",
            ],
        ));
    }
    assert_increasing(&positions(&vertex, &["uniform mat3 u_basis;\n", "uniform mat4 u_model;\n"]));
    assert!(!fragment.contains("u_model"));
}

#[test]
fn sections_stand_in_the_fixed_order() {
    let mut source = ordered_source();
    source.imported_functions = vec![];
    source.vertex_shader.import_fn = vec!["twice".to_string()];
    source.vertex_shader.main_fn = "gl_Position = vec4(position, twice(1.0));".to_string();
    let functions = vec![inline("twice", WebGLDataType::Float, "float x", "return 2.0 * x;")];
    let vertex = generate_vertex_stage_str(&source, &functions).unwrap();
    assert_eq!(
        vertex,
        "#version 300 es\nprecision highp float;\n\
         layout(location = 2) in vec3 normal;\n\
         layout(location = 0) in vec3 position;\n\
         layout(location = 1) in vec2 uv;\n\
         out vec3 v_zeta;\n\
         flat out int v_alpha;\n\
         smooth out vec2 v_mid;\n\
         layout(std140) uniform Camera {\n mat4 view;\n mat4 projection;\n vec3 eye;\n};\n\
         layout(std140) uniform Lights {\n vec4 sun;\n};\n\
         uniform float u_time;\n\
         uniform vec2 u_area;\n\
         uniform mat3 u_basis;\n\
         uniform mat4 u_model;\n\
         float twice ( float x ) {\nreturn 2.0 * x;\n}\n\
         void main() {\ngl_Position = vec4(position, twice(1.0));\n}"
    );
}

#[test]
fn locations_are_written_in_base_ten() {
    let mut code = String::new();
    let attributes = vec![
        attribute(0, WebGLDataType::Float, "a"),
        attribute(7, WebGLDataType::Float, "b"),
        attribute(10, WebGLDataType::Float, "c"),
        attribute(305, WebGLDataType::Float, "d"),
        attribute(4294967295, WebGLDataType::Float, "e"),
    ];
    push_stage_attributes(&mut code, &attributes, true).unwrap();
    assert_eq!(
        code,
        "layout(location = 0) in float a;\n\
         layout(location = 7) in float b;\n\
         layout(location = 10) in float c;\n\
         layout(location = 305) in float d;\n\
         layout(location = 4294967295) in float e;\n"
    );
}

#[test]
fn pushing_appends_to_what_is_there() {
    let mut code = String::from("// start\n");
    push_stage_attributes(&mut code, &vec![attribute(3, WebGLDataType::IVec2, "cell")], false).unwrap();
    push_varying(&mut code, true, &vec![varying(Some("flat"), WebGLDataType::Uint, "id")]).unwrap();
    let collection = UniformCollection {
        uniforms: vec![uniform(WebGLDataType::Bool, "on")],
        uniform_blocks: vec![ShaderUniformBlock {
            binding_number: 4,
            name: "Empty".to_string(),
            uniforms: vec![],
        }],
    };
    push_uniform_collection(&mut code, &collection).unwrap();
    push_imported_function(
        &mut code,
        &vec!["nothing".to_string()],
        &vec![inline("nothing", WebGLDataType::Void, "", "")],
    )
    .unwrap();
    push_main_function(&mut code, &"discard;".to_string());
    assert_eq!(
        code,
        "// start\n\
         layout(location = 3) out ivec2 cell;\n\
         flat in uint id;\n\
         layout(std140) uniform Empty {\n};\n\
         uniform bool on;\n\
         void nothing (  ) {\n\n}\n\
         void main() {\ndiscard;\n}"
    );
}

#[test]
fn every_kind_has_its_token() {
    let kinds = [
        (WebGLDataType::Void, "void"),
        (WebGLDataType::Bool, "bool"),
        (WebGLDataType::Int, "int"),
        (WebGLDataType::Uint, "uint"),
        (WebGLDataType::Float, "float"),
        (WebGLDataType::Vec2, "vec2"),
        (WebGLDataType::Vec3, "vec3"),
        (WebGLDataType::Vec4, "vec4"),
        (WebGLDataType::BVec2, "bvec2"),
        (WebGLDataType::BVec3, "bvec3"),
        (WebGLDataType::BVec4, "bvec4"),
        (WebGLDataType::IVec2, "ivec2"),
        (WebGLDataType::IVec3, "ivec3"),
        (WebGLDataType::IVec4, "ivec4"),
        (WebGLDataType::UVec2, "uvec2"),
        (WebGLDataType::UVec3, "uvec3"),
        (WebGLDataType::UVec4, "uvec4"),
        (WebGLDataType::Mat2, "mat2"),
        (WebGLDataType::Mat3, "mat3"),
        (WebGLDataType::Mat4, "mat4"),
    ];
    for (kind, token) in kinds {
        assert_eq!(kind.as_str(), token);
        assert_eq!(kind.is_declarable(), kind != WebGLDataType::Void);
    }
}

#[test]
fn default_fragment_attribute_is_the_colour_output() {
    let attribute = ShaderAttribute::get_default_frag_attribute();
    assert_eq!(attribute.layout_loc, 0);
    assert_eq!(attribute.kind, WebGLDataType::Vec4);
    assert_eq!(attribute.name, "frag_color");
}

#[test]
fn new_collection_is_empty() {
    let collection = UniformCollection::new();
    assert!(collection.uniforms.is_empty());
    assert!(collection.uniform_blocks.is_empty());
}

fn invalid(name: &str) -> GenerateError {
    GenerateError::InvalidType { name: name.to_string() }
}

fn unresolved(name: &str) -> GenerateError {
    GenerateError::UnresolvedImport { name: name.to_string() }
}

#[test]
fn void_attribute_is_rejected() {
    let mut source = minimal_source();
    source.vertex_shader.attributes.push(attribute(1, WebGLDataType::Void, "nothing"));
    assert_eq!(generate_vertex_stage_str(&source, &Vec::new()), Err(invalid("nothing")));
    assert!(generate_fragment_stage_str(&source, &Vec::new()).is_ok());
    assert_eq!(generate_vertex_fragment_shader(&source, &Vec::new()), Err(invalid("nothing")));
}

#[test]
fn void_varying_is_rejected() {
    let mut source = minimal_source();
    source.varyings.insert(0, varying(None, WebGLDataType::Void, "gap"));
    assert_eq!(generate_vertex_stage_str(&source, &Vec::new()), Err(invalid("gap")));
    assert_eq!(generate_fragment_stage_str(&source, &Vec::new()), Err(invalid("gap")));
}

#[test]
fn void_uniform_is_rejected() {
    let mut source = minimal_source();
    source.fragment_shader.uniform_collection.uniforms.push(uniform(WebGLDataType::Void, "hole"));
    assert!(generate_vertex_stage_str(&source, &Vec::new()).is_ok());
    assert_eq!(generate_fragment_stage_str(&source, &Vec::new()), Err(invalid("hole")));
    let mut source = minimal_source();
    source.common_uniforms.uniforms.push(uniform(WebGLDataType::Void, "shared_hole"));
    assert_eq!(generate_vertex_stage_str(&source, &Vec::new()), Err(invalid("shared_hole")));
}

#[test]
fn void_block_member_is_rejected() {
    let mut source = minimal_source();
    source.common_uniforms.uniform_blocks.push(ShaderUniformBlock {
        binding_number: 0,
        name: "Block".to_string(),
        uniforms: vec![uniform(WebGLDataType::Float, "fine"), uniform(WebGLDataType::Void, "member")],
    });
    assert_eq!(generate_vertex_stage_str(&source, &Vec::new()), Err(invalid("member")));
}

#[test]
fn first_void_in_rendering_order_is_reported() {
    let mut source = minimal_source();
    source.common_uniforms.uniforms.push(uniform(WebGLDataType::Void, "third"));
    source.common_uniforms.uniform_blocks.push(ShaderUniformBlock {
        binding_number: 0,
        name: "Block".to_string(),
        uniforms: vec![uniform(WebGLDataType::Void, "second")],
    });
    assert_eq!(generate_vertex_stage_str(&source, &Vec::new()), Err(invalid("second")));
    source.varyings.push(varying(None, WebGLDataType::Void, "first"));
    assert_eq!(generate_vertex_stage_str(&source, &Vec::new()), Err(invalid("first")));
    source.vertex_shader.import_fn.push("absent".to_string());
    assert_eq!(generate_vertex_stage_str(&source, &Vec::new()), Err(invalid("first")));
}

#[test]
fn rejected_section_leaves_the_text_alone() {
    let mut code = String::from("kept");
    let attributes =
        vec![attribute(0, WebGLDataType::Float, "fine"), attribute(1, WebGLDataType::Void, "bad")];
    assert_eq!(push_stage_attributes(&mut code, &attributes, true), Err(invalid("bad")));
    assert_eq!(code, "kept");
    let names = vec!["known".to_string(), "unknown".to_string()];
    let functions = vec![inline("known", WebGLDataType::Int, "", "return 1;")];
    assert_eq!(push_imported_function(&mut code, &names, &functions), Err(unresolved("unknown")));
    assert_eq!(code, "kept");
}

#[test]
fn void_function_is_rendered() {
    let mut source = minimal_source();
    source.fragment_shader.import_fn = vec!["shade".to_string()];
    let functions = vec![inline("shade", WebGLDataType::Void, "inout vec4 c", "c.a = 1.0;")];
    let fragment = generate_fragment_stage_str(&source, &functions).unwrap();
    assert!(fragment.contains("void shade ( inout vec4 c ) {\nc.a = 1.0;\n}\n"));
}

#[test]
fn functions_stand_in_the_order_of_the_stage() {
    let mut source = empty_source();
    source.vertex_shader.import_fn = vec!["b".to_string(), "a".to_string(), "b".to_string()];
    let functions = vec![
        inline("a", WebGLDataType::Float, "", "return 1.0;"),
        inline("b", WebGLDataType::Vec2, "float x", "return vec2(x);"),
        inline("a", WebGLDataType::Int, "", "return 2;"),
    ];
    let vertex = generate_vertex_stage_str(&source, &functions).unwrap();
    assert_eq!(
        vertex,
        format!(
            "{}vec2 b ( float x ) {{\nreturn vec2(x);\n}}\n\
             float a (  ) {{\nreturn 1.0;\n}}\n\
             vec2 b ( float x ) {{\nreturn vec2(x);\n}}\n\
             void main() {{\n\n}}",
            HEADER
        )
    );
}

#[test]
fn missing_function_is_unresolved() {
    let mut source = minimal_source();
    source.vertex_shader.import_fn = vec!["light".to_string()];
    assert_eq!(generate_vertex_stage_str(&source, &Vec::new()), Err(unresolved("light")));
    assert!(generate_fragment_stage_str(&source, &Vec::new()).is_ok());
}

#[test]
fn reference_among_the_functions_is_unresolved() {
    let mut source = minimal_source();
    source.fragment_shader.import_fn = vec!["light".to_string()];
    let functions = vec![
        import("light", "lighting.yaml"),
        inline("light", WebGLDataType::Float, "", "return 1.0;"),
    ];
    assert_eq!(generate_fragment_stage_str(&source, &functions), Err(unresolved("light")));
    assert_eq!(generate_vertex_fragment_shader(&source, &functions), Err(unresolved("light")));
}

#[test]
fn vertex_error_comes_before_fragment_error() {
    let mut source = minimal_source();
    source.vertex_shader.import_fn = vec!["v".to_string()];
    source.fragment_shader.attributes.push(attribute(1, WebGLDataType::Void, "f"));
    assert_eq!(generate_vertex_fragment_shader(&source, &Vec::new()), Err(unresolved("v")));
}

#[test]
fn single_source_uses_its_own_functions() {
    let mut source = minimal_source();
    source.imported_functions = vec![inline("half", WebGLDataType::Float, "float x", "return 0.5 * x;")];
    source.fragment_shader.import_fn = vec!["half".to_string()];
    let (vertex, fragment) = generate_shader_str_from_single_source(&source).unwrap();
    assert!(!vertex.contains("half"));
    assert!(fragment.contains("float half ( float x ) {\nreturn 0.5 * x;\n}\n"));
    assert_eq!(
        generate_vertex_fragment_shader(&source, &source.imported_functions).unwrap(),
        (vertex, fragment)
    );
}

#[test]
fn single_source_rejects_references() {
    let mut source = minimal_source();
    source.imported_functions = vec![
        inline("half", WebGLDataType::Float, "float x", "return 0.5 * x;"),
        import("far", "far.yaml"),
        import("farther", "far.yaml"),
    ];
    assert_eq!(generate_shader_str_from_single_source(&source), Err(unresolved("far")));
}

#[test]
fn generate_errors_say_what_went_wrong() {
    assert_eq!(invalid("hole").message(), "Variable cannot be of type void | variable: hole");
    assert_eq!(unresolved("light").message(), "Function not found | function: light");
}
