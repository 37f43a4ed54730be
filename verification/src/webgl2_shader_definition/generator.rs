//! Renders a shader source, with its resolved functions, into the text of
//! its two stages.
//!
//! A stage is rendered in a fixed order: the header, the stage's attributes,
//! the varyings, the uniforms that both stages share, the stage's own
//! uniforms, the functions that the stage imports, and `main`. Within each
//! group the order is the order of declaration.
//!
//! Two things make a stage fail. A variable (attribute, varying, uniform)
//! of kind `void` is an `InvalidType`. A function may return `void`. A
//! function that the stage imports and that the resolved list does not hold
//! with its text is an `UnresolvedImport`.

use vstd::prelude::*;
use vstd::string::*;

use super::data_type::WebGLDataType;
use super::model::{
    find_by_name, find_function, view_each, FunctionDefinition, FunctionDefinitionType,
    FunctionDefinitionTypeView, FunctionDefinitionView, ShaderAttribute, ShaderAttributeView,
    ShaderSource, ShaderSourceView, ShaderStage, ShaderStageView, ShaderUniform,
    ShaderUniformBlock, ShaderUniformBlockView, ShaderUniformView, ShaderVarying,
    ShaderVaryingView, UniformCollection, UniformCollectionView,
};
use super::text::{decimal_text, join_lines, lemma_flatten_next, lemma_flatten_split, push_decimal};

verus! {

/// Why a shader could not be generated.
#[derive(Debug, Clone, PartialEq, Eq)]
pub enum GenerateError {
    /// The variable `name` is declared with the kind `void`.
    InvalidType { name: String },
    /// A stage imports the function `name`, and the resolved functions hold
    /// no definition of that name with its text.
    UnresolvedImport { name: String },
}

pub enum GenerateErrorView {
    InvalidType { name: Seq<char> },
    UnresolvedImport { name: Seq<char> },
}

impl View for GenerateError {
    type V = GenerateErrorView;

    open spec fn view(&self) -> GenerateErrorView {
        match self {
            GenerateError::InvalidType { name } => GenerateErrorView::InvalidType { name: name@ },
            GenerateError::UnresolvedImport { name } => GenerateErrorView::UnresolvedImport {
                name: name@,
            },
        }
    }
}

impl GenerateErrorView {
    /// The error in words, with the name of the variable or of the
    /// function.
    pub open spec fn message_text(self) -> Seq<char> {
        match self {
            GenerateErrorView::InvalidType { name } => {
                "Variable cannot be of type void | variable: "@ + name
            },
            GenerateErrorView::UnresolvedImport { name } => "Function not found | function: "@
                + name,
        }
    }
}

impl GenerateError {
    /// Says in words what went wrong.
    pub fn message(&self) -> (text: String)
        ensures
            text@ == self@.message_text(),
    {
        match self {
            GenerateError::InvalidType { name } => {
                let mut text = String::from_str("Variable cannot be of type void | variable: ");
                text.append(name.as_str());
                text
            },
            GenerateError::UnresolvedImport { name } => {
                let mut text = String::from_str("Function not found | function: ");
                text.append(name.as_str());
                text
            },
        }
    }
}

/// A declared variable: its kind and its name.
pub struct Declaration {
    pub kind: WebGLDataType,
    pub name: Seq<char>,
}

/// The name of the first declaration of kind `void`, if there is one.
pub open spec fn first_void(declarations: Seq<Declaration>) -> Option<Seq<char>>
    decreases declarations.len(),
{
    if declarations.len() == 0 {
        None
    } else if !declarations[0].kind.declares_variable() {
        Some(declarations[0].name)
    } else {
        first_void(declarations.drop_first())
    }
}

/// Whether the first `count` declarations may all be made.
pub open spec fn declarable_below(declarations: Seq<Declaration>, count: int) -> bool {
    forall|k: int|
        0 <= k < count && k < declarations.len() ==> (
        #[trigger] declarations[k]).kind.declares_variable()
}

/// The first `void` is the one before which there is none.
pub proof fn lemma_first_void_at(declarations: Seq<Declaration>, index: int)
    requires
        0 <= index < declarations.len(),
        declarable_below(declarations, index),
        !declarations[index].kind.declares_variable(),
    ensures
        first_void(declarations) == Some(declarations[index].name),
    decreases index,
{
    if index > 0 {
        let rest = declarations.drop_first();
        assert(declarations[0].kind.declares_variable());
        assert forall|k: int| 0 <= k < index - 1 && k < rest.len() implies (
        #[trigger] rest[k]).kind.declares_variable() by {
            assert(rest[k] == declarations[k + 1]);
        }
        lemma_first_void_at(rest, index - 1);
    }
}

/// Where no declaration is `void`, there is no first one.
pub proof fn lemma_no_void(declarations: Seq<Declaration>)
    requires
        declarable_below(declarations, declarations.len() as int),
    ensures
        first_void(declarations) is None,
    decreases declarations.len(),
{
    if declarations.len() > 0 {
        let rest = declarations.drop_first();
        assert(declarations[0].kind.declares_variable());
        assert forall|k: int| 0 <= k < rest.len() implies (
        #[trigger] rest[k]).kind.declares_variable() by {
            assert(rest[k] == declarations[k + 1]);
        }
        lemma_no_void(rest);
    }
}

/// Where there is no first `void`, no declaration is `void`.
pub proof fn lemma_none_void(declarations: Seq<Declaration>)
    requires
        first_void(declarations) is None,
    ensures
        declarable_below(declarations, declarations.len() as int),
    decreases declarations.len(),
{
    if declarations.len() > 0 {
        let rest = declarations.drop_first();
        lemma_none_void(rest);
        assert forall|k: int| 0 <= k < declarations.len() implies (
        #[trigger] declarations[k]).kind.declares_variable() by {
            if k > 0 {
                assert(rest[k - 1] == declarations[k]);
            }
        }
    }
}

/// The first `void` of two groups is that of the first group, or else that
/// of the second.
pub proof fn lemma_first_void_add(front: Seq<Declaration>, back: Seq<Declaration>)
    ensures
        first_void(front + back) == match first_void(front) {
            Some(name) => Some(name),
            None => first_void(back),
        },
    decreases front.len(),
{
    if front.len() == 0 {
        assert(front + back =~= back);
    } else {
        assert((front + back).drop_first() =~= front.drop_first() + back);
        lemma_first_void_add(front.drop_first(), back);
    }
}

/// The first line of every stage.
pub open spec fn header_text() -> Seq<char> {
    "#version 300 es\nprecision highp float;\n"@
}

/// `in` for something that the stage receives, `out` for something that it
/// hands on.
pub open spec fn direction_token(is_input: bool) -> Seq<char> {
    if is_input {
        "in"@
    } else {
        "out"@
    }
}

pub open spec fn attribute_line(attribute: ShaderAttributeView, is_input: bool) -> Seq<char> {
    "layout(location = "@ + decimal_text(attribute.layout_loc) + ") "@ + direction_token(is_input)
        + " "@ + attribute.kind.token() + " "@ + attribute.name + ";\n"@
}

pub open spec fn attribute_lines(attributes: Seq<ShaderAttributeView>, is_input: bool) -> Seq<
    Seq<char>,
> {
    attributes.map_values(|attribute: ShaderAttributeView| attribute_line(attribute, is_input))
}

pub open spec fn attributes_text(attributes: Seq<ShaderAttributeView>, is_input: bool) -> Seq<
    char,
> {
    join_lines(attribute_lines(attributes, is_input))
}

pub open spec fn attribute_declarations(attributes: Seq<ShaderAttributeView>) -> Seq<Declaration> {
    attributes.map_values(
        |attribute: ShaderAttributeView|
            Declaration { kind: attribute.kind, name: attribute.name },
    )
}

pub open spec fn varying_line(varying: ShaderVaryingView, is_input: bool) -> Seq<char> {
    match varying.interp {
        Some(qualifier) => qualifier + " "@ + direction_token(is_input) + " "@
            + varying.kind.token() + " "@ + varying.name + ";\n"@,
        None => direction_token(is_input) + " "@ + varying.kind.token() + " "@ + varying.name
            + ";\n"@,
    }
}

pub open spec fn varying_lines(varyings: Seq<ShaderVaryingView>, is_input: bool) -> Seq<Seq<char>> {
    varyings.map_values(|varying: ShaderVaryingView| varying_line(varying, is_input))
}

pub open spec fn varyings_text(varyings: Seq<ShaderVaryingView>, is_input: bool) -> Seq<char> {
    join_lines(varying_lines(varyings, is_input))
}

pub open spec fn varying_declarations(varyings: Seq<ShaderVaryingView>) -> Seq<Declaration> {
    varyings.map_values(
        |varying: ShaderVaryingView| Declaration { kind: varying.kind, name: varying.name },
    )
}

/// A uniform that stands by itself.
pub open spec fn uniform_line(uniform: ShaderUniformView) -> Seq<char> {
    "uniform "@ + uniform.kind.token() + " "@ + uniform.name + ";\n"@
}

pub open spec fn uniform_lines(uniforms: Seq<ShaderUniformView>) -> Seq<Seq<char>> {
    uniforms.map_values(|uniform: ShaderUniformView| uniform_line(uniform))
}

/// A uniform as the member of a block.
pub open spec fn member_line(uniform: ShaderUniformView) -> Seq<char> {
    " "@ + uniform.kind.token() + " "@ + uniform.name + ";\n"@
}

pub open spec fn member_lines(uniforms: Seq<ShaderUniformView>) -> Seq<Seq<char>> {
    uniforms.map_values(|uniform: ShaderUniformView| member_line(uniform))
}

pub open spec fn uniform_declarations(uniforms: Seq<ShaderUniformView>) -> Seq<Declaration> {
    uniforms.map_values(
        |uniform: ShaderUniformView| Declaration { kind: uniform.kind, name: uniform.name },
    )
}

pub open spec fn block_opening(block: ShaderUniformBlockView) -> Seq<char> {
    "layout(std140) uniform "@ + block.name + " {\n"@
}

pub open spec fn block_closing() -> Seq<char> {
    "};\n"@
}

pub open spec fn block_text(block: ShaderUniformBlockView) -> Seq<char> {
    block_opening(block) + join_lines(member_lines(block.uniforms)) + block_closing()
}

pub open spec fn block_texts(blocks: Seq<ShaderUniformBlockView>) -> Seq<Seq<char>> {
    blocks.map_values(|block: ShaderUniformBlockView| block_text(block))
}

pub open spec fn block_member_declarations(blocks: Seq<ShaderUniformBlockView>) -> Seq<
    Seq<Declaration>,
> {
    blocks.map_values(|block: ShaderUniformBlockView| uniform_declarations(block.uniforms))
}

/// The blocks first, then the uniforms that stand by themselves.
pub open spec fn collection_text(collection: UniformCollectionView) -> Seq<char> {
    join_lines(block_texts(collection.uniform_blocks)) + join_lines(
        uniform_lines(collection.uniforms),
    )
}

/// The uniforms in the order in which they are rendered: the members of the
/// blocks, block by block, then the uniforms that stand by themselves.
pub open spec fn collection_declarations(collection: UniformCollectionView) -> Seq<Declaration> {
    block_member_declarations(collection.uniform_blocks).flatten() + uniform_declarations(
        collection.uniforms,
    )
}

pub open spec fn function_text(
    name: Seq<char>,
    return_type: WebGLDataType,
    parameters: Seq<char>,
    body: Seq<char>,
) -> Seq<char> {
    return_type.token() + " "@ + name + " ( "@ + parameters + " ) {\n"@ + body + "\n}\n"@
}

/// The text of the function that a stage imports under `name`: that of the
/// first of `functions` with this name, which has to carry its own text.
pub open spec fn imported_function_text(
    name: Seq<char>,
    functions: Seq<FunctionDefinitionView>,
) -> Result<Seq<char>, GenerateErrorView> {
    match find_by_name(functions, name) {
        Some(found) => match found.definition {
            FunctionDefinitionTypeView::InlineFn { return_type, parameters, body } => Ok(
                function_text(found.name, return_type, parameters, body),
            ),
            FunctionDefinitionTypeView::ImportFn { .. } => Err(
                GenerateErrorView::UnresolvedImport { name },
            ),
        },
        None => Err(GenerateErrorView::UnresolvedImport { name }),
    }
}

/// The texts of the functions that a stage imports, in the order in which
/// it names them; or the error of the first name that cannot be resolved.
pub open spec fn imported_functions_text(
    import_fn: Seq<Seq<char>>,
    functions: Seq<FunctionDefinitionView>,
) -> Result<Seq<char>, GenerateErrorView>
    decreases import_fn.len(),
{
    if import_fn.len() == 0 {
        Ok(Seq::empty())
    } else {
        match imported_functions_text(import_fn.drop_last(), functions) {
            Err(error) => Err(error),
            Ok(text) => match imported_function_text(import_fn.last(), functions) {
                Ok(function) => Ok(text + function),
                Err(error) => Err(error),
            },
        }
    }
}

pub open spec fn main_text(main_fn: Seq<char>) -> Seq<char> {
    "void main() {\n"@ + main_fn + "\n}"@
}

/// Every variable that a stage declares, in the order in which it is
/// rendered.
pub open spec fn stage_declarations(source: ShaderSourceView, stage: ShaderStageView) -> Seq<
    Declaration,
> {
    attribute_declarations(stage.attributes) + varying_declarations(source.varyings)
        + collection_declarations(source.common_uniforms) + collection_declarations(
        stage.uniform_collection,
    )
}

/// The parts of a stage's text that do not depend on the resolved
/// functions, in their order: header, attributes, varyings, shared
/// uniforms, own uniforms. The vertex stage receives its attributes and
/// hands the varyings on; the fragment stage receives the varyings and
/// hands its attributes on.
pub open spec fn stage_interface_text(
    source: ShaderSourceView,
    stage: ShaderStageView,
    is_vertex: bool,
) -> Seq<char> {
    header_text() + attributes_text(stage.attributes, is_vertex) + varyings_text(
        source.varyings,
        !is_vertex,
    ) + collection_text(source.common_uniforms) + collection_text(stage.uniform_collection)
}

/// What generating one stage gives: its text, or the first error met in
/// rendering order.
pub open spec fn stage_result(
    source: ShaderSourceView,
    stage: ShaderStageView,
    functions: Seq<FunctionDefinitionView>,
    is_vertex: bool,
) -> Result<Seq<char>, GenerateErrorView> {
    match first_void(stage_declarations(source, stage)) {
        Some(name) => Err(GenerateErrorView::InvalidType { name }),
        None => match imported_functions_text(stage.import_fn, functions) {
            Err(error) => Err(error),
            Ok(imported) => Ok(
                stage_interface_text(source, stage, is_vertex) + imported + main_text(
                    stage.main_fn,
                ),
            ),
        },
    }
}

pub open spec fn vertex_stage_result(
    source: ShaderSourceView,
    functions: Seq<FunctionDefinitionView>,
) -> Result<Seq<char>, GenerateErrorView> {
    stage_result(source, source.vertex_shader, functions, true)
}

pub open spec fn fragment_stage_result(
    source: ShaderSourceView,
    functions: Seq<FunctionDefinitionView>,
) -> Result<Seq<char>, GenerateErrorView> {
    stage_result(source, source.fragment_shader, functions, false)
}

/// What generating both stages gives: the two texts, vertex stage first, or
/// the first error, that of the vertex stage before that of the fragment
/// stage.
pub open spec fn program_result(
    source: ShaderSourceView,
    functions: Seq<FunctionDefinitionView>,
) -> Result<(Seq<char>, Seq<char>), GenerateErrorView> {
    match vertex_stage_result(source, functions) {
        Err(error) => Err(error),
        Ok(vertex) => match fragment_stage_result(source, functions) {
            Err(error) => Err(error),
            Ok(fragment) => Ok((vertex, fragment)),
        },
    }
}

/// The name of the first declaration that only refers to a file.
pub open spec fn first_reference(declared: Seq<FunctionDefinitionView>) -> Option<Seq<char>>
    decreases declared.len(),
{
    if declared.len() == 0 {
        None
    } else if !declared[0].is_inline() {
        Some(declared[0].name)
    } else {
        first_reference(declared.drop_first())
    }
}

/// What generating from a source alone gives: the source must declare every
/// function with its text.
pub open spec fn single_source_result(source: ShaderSourceView) -> Result<
    (Seq<char>, Seq<char>),
    GenerateErrorView,
> {
    match first_reference(source.imported_functions) {
        Some(name) => Err(GenerateErrorView::UnresolvedImport { name }),
        None => program_result(source, source.imported_functions),
    }
}

/// How appending one group of declarations went: either none of them is
/// `void` and the group's text now stands at the end, or the first `void`
/// is reported and the text is as it was.
pub open spec fn section_pushed(
    before: Seq<char>,
    after: Seq<char>,
    result: Result<(), GenerateError>,
    declarations: Seq<Declaration>,
    text: Seq<char>,
) -> bool {
    match result {
        Ok(_) => first_void(declarations) is None && after == before + text,
        Err(error) => first_void(declarations) is Some && error@ == (
            GenerateErrorView::InvalidType { name: first_void(declarations)->0 }
        ) && after == before,
    }
}

/// A generated text, or an error, as values of the model.
pub open spec fn text_outcome(result: Result<String, GenerateError>) -> Result<
    Seq<char>,
    GenerateErrorView,
> {
    match result {
        Ok(text) => Ok(text@),
        Err(error) => Err(error@),
    }
}

/// Two generated texts, or an error, as values of the model.
pub open spec fn program_outcome(result: Result<(String, String), GenerateError>) -> Result<
    (Seq<char>, Seq<char>),
    GenerateErrorView,
> {
    match result {
        Ok(texts) => Ok((texts.0@, texts.1@)),
        Err(error) => Err(error@),
    }
}

fn direction(is_input: bool) -> (token: &'static str)
    ensures
        token@ == direction_token(is_input),
{
    if is_input {
        "in"
    } else {
        "out"
    }
}

/// Appends the declarations of a stage's attributes, one line each.
pub fn push_stage_attributes(
    shader_code: &mut String,
    attributes: &Vec<ShaderAttribute>,
    is_input: bool,
) -> (result: Result<(), GenerateError>)
    ensures
        section_pushed(
            old(shader_code)@,
            final(shader_code)@,
            result,
            attribute_declarations(view_each(attributes@)),
            attributes_text(view_each(attributes@), is_input),
        ),
{
    let ghost lines = attribute_lines(view_each(attributes@), is_input);
    let ghost declarations = attribute_declarations(view_each(attributes@));
    let mut text = String::new();
    let mut i: usize = 0;
    assert(lines.take(0).flatten() =~= Seq::<char>::empty());
    while i < attributes.len()
        invariant
            0 <= i <= attributes@.len(),
            lines == attribute_lines(view_each(attributes@), is_input),
            declarations == attribute_declarations(view_each(attributes@)),
            text@ == join_lines(lines.take(i as int)),
            declarable_below(declarations, i as int),
        decreases attributes@.len() - i,
    {
        let attribute = &attributes[i];
        if !attribute.kind.is_declarable() {
            proof {
                lemma_first_void_at(declarations, i as int);
            }
            return Err(GenerateError::InvalidType { name: attribute.name.clone() });
        }
        let ghost before = text@;
        text.append("layout(location = ");
        push_decimal(&mut text, attribute.layout_loc);
        text.append(") ");
        text.append(direction(is_input));
        text.append(" ");
        text.append(attribute.kind.as_str());
        text.append(" ");
        text.append(attribute.name.as_str());
        text.append(";\n");
        proof {
            lemma_flatten_next(lines, i as int);
            assert(text@ =~= before + attribute_line(attribute@, is_input));
        }
        i += 1;
    }
    proof {
        lemma_no_void(declarations);
        assert(lines.take(i as int) =~= lines);
    }
    shader_code.append(text.as_str());
    Ok(())
}

/// Appends the declarations of the varyings, one line each.
pub fn push_varying(
    shader_code: &mut String,
    is_input: bool,
    varyings: &Vec<ShaderVarying>,
) -> (result: Result<(), GenerateError>)
    ensures
        section_pushed(
            old(shader_code)@,
            final(shader_code)@,
            result,
            varying_declarations(view_each(varyings@)),
            varyings_text(view_each(varyings@), is_input),
        ),
{
    let ghost lines = varying_lines(view_each(varyings@), is_input);
    let ghost declarations = varying_declarations(view_each(varyings@));
    let mut text = String::new();
    let mut i: usize = 0;
    assert(lines.take(0).flatten() =~= Seq::<char>::empty());
    while i < varyings.len()
        invariant
            0 <= i <= varyings@.len(),
            lines == varying_lines(view_each(varyings@), is_input),
            declarations == varying_declarations(view_each(varyings@)),
            text@ == join_lines(lines.take(i as int)),
            declarable_below(declarations, i as int),
        decreases varyings@.len() - i,
    {
        let varying = &varyings[i];
        if !varying.kind.is_declarable() {
            proof {
                lemma_first_void_at(declarations, i as int);
            }
            return Err(GenerateError::InvalidType { name: varying.name.clone() });
        }
        let ghost before = text@;
        match &varying.interp {
            Some(qualifier) => {
                text.append(qualifier.as_str());
                text.append(" ");
            },
            None => {},
        }
        text.append(direction(is_input));
        text.append(" ");
        text.append(varying.kind.as_str());
        text.append(" ");
        text.append(varying.name.as_str());
        text.append(";\n");
        proof {
            lemma_flatten_next(lines, i as int);
            assert(text@ =~= before + varying_line(varying@, is_input));
        }
        i += 1;
    }
    proof {
        lemma_no_void(declarations);
        assert(lines.take(i as int) =~= lines);
    }
    shader_code.append(text.as_str());
    Ok(())
}

fn push_free_uniforms(text: &mut String, uniforms: &Vec<ShaderUniform>) -> (result: Result<
    (),
    GenerateError,
>)
    ensures
        section_pushed(
            old(text)@,
            final(text)@,
            result,
            uniform_declarations(view_each(uniforms@)),
            join_lines(uniform_lines(view_each(uniforms@))),
        ),
{
    let ghost lines = uniform_lines(view_each(uniforms@));
    let ghost declarations = uniform_declarations(view_each(uniforms@));
    let mut section = String::new();
    let mut i: usize = 0;
    assert(lines.take(0).flatten() =~= Seq::<char>::empty());
    while i < uniforms.len()
        invariant
            0 <= i <= uniforms@.len(),
            lines == uniform_lines(view_each(uniforms@)),
            declarations == uniform_declarations(view_each(uniforms@)),
            section@ == join_lines(lines.take(i as int)),
            declarable_below(declarations, i as int),
        decreases uniforms@.len() - i,
    {
        let uniform = &uniforms[i];
        if !uniform.kind.is_declarable() {
            proof {
                lemma_first_void_at(declarations, i as int);
            }
            return Err(GenerateError::InvalidType { name: uniform.name.clone() });
        }
        let ghost before = section@;
        section.append("uniform ");
        section.append(uniform.kind.as_str());
        section.append(" ");
        section.append(uniform.name.as_str());
        section.append(";\n");
        proof {
            lemma_flatten_next(lines, i as int);
            assert(section@ =~= before + uniform_line(uniform@));
        }
        i += 1;
    }
    proof {
        lemma_no_void(declarations);
        assert(lines.take(i as int) =~= lines);
    }
    text.append(section.as_str());
    Ok(())
}

fn push_uniform_block(text: &mut String, block: &ShaderUniformBlock) -> (result: Result<
    (),
    GenerateError,
>)
    ensures
        section_pushed(
            old(text)@,
            final(text)@,
            result,
            uniform_declarations(block@.uniforms),
            block_text(block@),
        ),
{
    let ghost lines = member_lines(block@.uniforms);
    let ghost declarations = uniform_declarations(block@.uniforms);
    let mut section = String::new();
    section.append("layout(std140) uniform ");
    section.append(block.name.as_str());
    section.append(" {\n");
    let mut i: usize = 0;
    assert(lines.take(0).flatten() =~= Seq::<char>::empty());
    assert(section@ =~= block_opening(block@) + join_lines(lines.take(0)));
    while i < block.uniforms.len()
        invariant
            0 <= i <= block.uniforms@.len(),
            lines == member_lines(block@.uniforms),
            declarations == uniform_declarations(block@.uniforms),
            section@ == block_opening(block@) + join_lines(lines.take(i as int)),
            declarable_below(declarations, i as int),
        decreases block.uniforms@.len() - i,
    {
        let uniform = &block.uniforms[i];
        if !uniform.kind.is_declarable() {
            proof {
                lemma_first_void_at(declarations, i as int);
            }
            return Err(GenerateError::InvalidType { name: uniform.name.clone() });
        }
        let ghost before = section@;
        section.append(" ");
        section.append(uniform.kind.as_str());
        section.append(" ");
        section.append(uniform.name.as_str());
        section.append(";\n");
        proof {
            lemma_flatten_next(lines, i as int);
            assert(section@ =~= block_opening(block@) + (join_lines(lines.take(i as int))
                + member_line(uniform@)));
        }
        i += 1;
    }
    section.append("};\n");
    proof {
        lemma_no_void(declarations);
        assert(lines.take(i as int) =~= lines);
    }
    text.append(section.as_str());
    Ok(())
}

/// Appends the declarations of a collection of uniforms: its blocks, each
/// with its members, then its free-standing uniforms, one line each.
pub fn push_uniform_collection(
    shader_code: &mut String,
    u_collection: &UniformCollection,
) -> (result: Result<(), GenerateError>)
    ensures
        section_pushed(
            old(shader_code)@,
            final(shader_code)@,
            result,
            collection_declarations(u_collection@),
            collection_text(u_collection@),
        ),
{
    let ghost blocks = u_collection@.uniform_blocks;
    let ghost texts = block_texts(blocks);
    let ghost members = block_member_declarations(blocks);
    let ghost free = uniform_declarations(u_collection@.uniforms);
    let mut text = String::new();
    let mut b: usize = 0;
    assert(texts.take(0).flatten() =~= Seq::<char>::empty());
    assert(members.take(0).flatten() =~= Seq::<Declaration>::empty());
    while b < u_collection.uniform_blocks.len()
        invariant
            0 <= b <= u_collection.uniform_blocks@.len(),
            blocks == u_collection@.uniform_blocks,
            texts == block_texts(blocks),
            members == block_member_declarations(blocks),
            free == uniform_declarations(u_collection@.uniforms),
            text@ == join_lines(texts.take(b as int)),
            first_void(members.take(b as int).flatten()) is None,
        decreases u_collection.uniform_blocks@.len() - b,
    {
        let block = &u_collection.uniform_blocks[b];
        let pushed = push_uniform_block(&mut text, block);
        proof {
            assert(blocks[b as int] == block@);
            lemma_flatten_next(texts, b as int);
            lemma_flatten_next(members, b as int);
            lemma_flatten_split(members, b as int);
            let done = members.take(b as int).flatten();
            let rest = members.skip(b + 1).flatten();
            lemma_first_void_add(done, members[b as int]);
            lemma_first_void_add(done + members[b as int], rest);
            lemma_first_void_add(done + members[b as int] + rest, free);
        }
        match pushed {
            Err(error) => {
                return Err(error);
            },
            Ok(_) => {},
        }
        b += 1;
    }
    proof {
        assert(texts.take(b as int) =~= texts);
        assert(members.take(b as int) =~= members);
        lemma_first_void_add(members.flatten(), free);
    }
    match push_free_uniforms(&mut text, &u_collection.uniforms) {
        Err(error) => {
            return Err(error);
        },
        Ok(_) => {},
    }
    shader_code.append(text.as_str());
    Ok(())
}

/// An error among the first `count` imported names is the error of them
/// all.
proof fn lemma_unresolved_stays(
    import_fn: Seq<Seq<char>>,
    functions: Seq<FunctionDefinitionView>,
    count: int,
)
    requires
        0 <= count <= import_fn.len(),
        imported_functions_text(import_fn.take(count), functions) is Err,
    ensures
        imported_functions_text(import_fn, functions) == imported_functions_text(
            import_fn.take(count),
            functions,
        ),
    decreases import_fn.len() - count,
{
    if count == import_fn.len() {
        assert(import_fn.take(count) =~= import_fn);
    } else {
        assert(import_fn.take(count + 1).drop_last() =~= import_fn.take(count));
        lemma_unresolved_stays(import_fn, functions, count + 1);
    }
}

/// The outcome of appending imported functions: their texts now stand at
/// the end, or the first unresolved name is reported and the text is as it
/// was.
pub open spec fn functions_pushed(
    before: Seq<char>,
    after: Seq<char>,
    result: Result<(), GenerateError>,
    expected: Result<Seq<char>, GenerateErrorView>,
) -> bool {
    match result {
        Ok(_) => expected is Ok && after == before + expected->Ok_0,
        Err(error) => expected == Err::<Seq<char>, GenerateErrorView>(error@) && after == before,
    }
}

/// Appends the functions that a stage imports, in the order in which the
/// stage names them, each looked up by name in `imported_functions`.
pub fn push_imported_function(
    shader_code: &mut String,
    import_fn: &Vec<String>,
    imported_functions: &Vec<FunctionDefinition>,
) -> (result: Result<(), GenerateError>)
    ensures
        functions_pushed(
            old(shader_code)@,
            final(shader_code)@,
            result,
            imported_functions_text(view_each(import_fn@), view_each(imported_functions@)),
        ),
{
    let ghost names = view_each(import_fn@);
    let ghost functions = view_each(imported_functions@);
    let mut text = String::new();
    let mut i: usize = 0;
    assert(names.take(0) =~= Seq::<Seq<char>>::empty());
    while i < import_fn.len()
        invariant
            0 <= i <= import_fn@.len(),
            names == view_each(import_fn@),
            functions == view_each(imported_functions@),
            imported_functions_text(names.take(i as int), functions) == Ok::<
                Seq<char>,
                GenerateErrorView,
            >(text@),
        decreases import_fn@.len() - i,
    {
        let name = &import_fn[i];
        proof {
            assert(names.take(i + 1).drop_last() =~= names.take(i as int));
            assert(names.take(i + 1).last() == name@);
        }
        let ghost before = text@;
        let mut resolved = false;
        match find_function(imported_functions, name) {
            Some(found) => {
                match &found.definition {
                    FunctionDefinitionType::InlineFn { return_type, parameters, body } => {
                        text.append(return_type.as_str());
                        text.append(" ");
                        text.append(found.name.as_str());
                        text.append(" ( ");
                        text.append(parameters.as_str());
                        text.append(" ) {\n");
                        text.append(body.as_str());
                        text.append("\n}\n");
                        resolved = true;
                        proof {
                            assert(text@ =~= before + function_text(
                                found@.name,
                                *return_type,
                                parameters@,
                                body@,
                            ));
                        }
                    },
                    FunctionDefinitionType::ImportFn { .. } => {},
                }
            },
            None => {},
        }
        if !resolved {
            proof {
                lemma_unresolved_stays(names, functions, i + 1);
            }
            return Err(GenerateError::UnresolvedImport { name: name.clone() });
        }
        i += 1;
    }
    proof {
        assert(names.take(i as int) =~= names);
    }
    shader_code.append(text.as_str());
    Ok(())
}

/// Appends `main` with the body `main_fn`.
pub fn push_main_function(shader_code: &mut String, main_fn: &String)
    ensures
        final(shader_code)@ == old(shader_code)@ + main_text(main_fn@),
{
    shader_code.append("void main() {\n");
    shader_code.append(main_fn.as_str());
    shader_code.append("\n}");
    assert(shader_code@ =~= old(shader_code)@ + main_text(main_fn@));
}

fn generate_stage_str(
    shader_src: &ShaderSource,
    stage: &ShaderStage,
    imported_functions: &Vec<FunctionDefinition>,
    is_vertex: bool,
) -> (result: Result<String, GenerateError>)
    ensures
        text_outcome(result) == stage_result(
            shader_src@,
            stage@,
            view_each(imported_functions@),
            is_vertex,
        ),
{
    let ghost attributes = attribute_declarations(stage@.attributes);
    let ghost varyings = varying_declarations(shader_src@.varyings);
    let ghost common = collection_declarations(shader_src@.common_uniforms);
    let ghost own = collection_declarations(stage@.uniform_collection);
    proof {
        lemma_first_void_add(attributes, varyings);
        lemma_first_void_add(attributes + varyings, common);
        lemma_first_void_add(attributes + varyings + common, own);
    }
    let mut shader_code = String::from_str("#version 300 es\nprecision highp float;\n");
    match push_stage_attributes(&mut shader_code, &stage.attributes, is_vertex) {
        Err(error) => {
            return Err(error);
        },
        Ok(_) => {},
    }
    match push_varying(&mut shader_code, !is_vertex, &shader_src.varyings) {
        Err(error) => {
            return Err(error);
        },
        Ok(_) => {},
    }
    match push_uniform_collection(&mut shader_code, &shader_src.common_uniforms) {
        Err(error) => {
            return Err(error);
        },
        Ok(_) => {},
    }
    match push_uniform_collection(&mut shader_code, &stage.uniform_collection) {
        Err(error) => {
            return Err(error);
        },
        Ok(_) => {},
    }
    assert(shader_code@ == stage_interface_text(shader_src@, stage@, is_vertex));
    match push_imported_function(&mut shader_code, &stage.import_fn, imported_functions) {
        Err(error) => {
            return Err(error);
        },
        Ok(_) => {},
    }
    push_main_function(&mut shader_code, &stage.main_fn);
    Ok(shader_code)
}

/// Generates the text of the fragment stage of `shader_src`, with
/// `imported_functions` as the resolved functions.
pub fn generate_fragment_stage_str(
    shader_src: &ShaderSource,
    imported_functions: &Vec<FunctionDefinition>,
) -> (result: Result<String, GenerateError>)
    ensures
        text_outcome(result) == fragment_stage_result(
            shader_src@,
            view_each(imported_functions@),
        ),
{
    generate_stage_str(shader_src, &shader_src.fragment_shader, imported_functions, false)
}

/// Generates the text of the vertex stage of `shader_src`, with
/// `imported_functions` as the resolved functions.
pub fn generate_vertex_stage_str(
    shader_src: &ShaderSource,
    imported_functions: &Vec<FunctionDefinition>,
) -> (result: Result<String, GenerateError>)
    ensures
        text_outcome(result) == vertex_stage_result(shader_src@, view_each(imported_functions@)),
{
    generate_stage_str(shader_src, &shader_src.vertex_shader, imported_functions, true)
}

/// Generates the texts of both stages of `source`, the vertex stage first.
pub fn generate_vertex_fragment_shader(
    source: &ShaderSource,
    imported_fn: &Vec<FunctionDefinition>,
) -> (result: Result<(String, String), GenerateError>)
    ensures
        program_outcome(result) == program_result(source@, view_each(imported_fn@)),
{
    let vertex_shader_code = match generate_vertex_stage_str(source, imported_fn) {
        Ok(text) => text,
        Err(error) => {
            return Err(error);
        },
    };
    let fragment_shader_code = match generate_fragment_stage_str(source, imported_fn) {
        Ok(text) => text,
        Err(error) => {
            return Err(error);
        },
    };
    Ok((vertex_shader_code, fragment_shader_code))
}

/// Generates both stages of a source that declares every function with its
/// text. A declaration that only refers to a file is reported as
/// unresolved.
pub fn generate_shader_str_from_single_source(source: &ShaderSource) -> (result: Result<
    (String, String),
    GenerateError,
>)
    ensures
        program_outcome(result) == single_source_result(source@),
{
    let ghost declared = view_each(source.imported_functions@);
    let mut i: usize = 0;
    assert(declared.skip(0) =~= declared);
    while i < source.imported_functions.len()
        invariant
            0 <= i <= source.imported_functions@.len(),
            declared == view_each(source.imported_functions@),
            first_reference(declared) == first_reference(declared.skip(i as int)),
        decreases source.imported_functions@.len() - i,
    {
        let entry = &source.imported_functions[i];
        proof {
            assert(declared.skip(i as int).drop_first() =~= declared.skip(i + 1));
            assert(declared.skip(i as int)[0] == entry@);
        }
        match &entry.definition {
            FunctionDefinitionType::InlineFn { .. } => {},
            FunctionDefinitionType::ImportFn { .. } => {
                return Err(GenerateError::UnresolvedImport { name: entry.name.clone() });
            },
        }
        i += 1;
    }
    generate_vertex_fragment_shader(source, &source.imported_functions)
}

} // verus!
