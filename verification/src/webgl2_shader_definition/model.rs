//! The declared interface of a shader program, as plain owned data, and the
//! mathematical view of each entity.

use vstd::prelude::*;
use vstd::string::*;

use super::data_type::WebGLDataType;

verus! {

/// The views of the items of a sequence, in the same order.
pub open spec fn view_each<T: View>(items: Seq<T>) -> Seq<T::V> {
    items.map_values(|item: T| item@)
}

/// Viewing item by item goes along with appending an item.
pub proof fn lemma_view_each_push<T: View>(items: Seq<T>, item: T)
    ensures
        view_each(items.push(item)) == view_each(items).push(item@),
{
    assert(view_each(items.push(item)) =~= view_each(items).push(item@));
}

/// Viewing item by item goes along with joining two sequences.
pub proof fn lemma_view_each_add<T: View>(front: Seq<T>, back: Seq<T>)
    ensures
        view_each(front + back) == view_each(front) + view_each(back),
{
    assert(view_each(front + back) =~= view_each(front) + view_each(back));
}

/// A per-vertex input of the vertex stage, or an output of the fragment
/// stage, bound to a fixed slot.
#[derive(Debug, Clone, PartialEq, Eq)]
pub struct ShaderAttribute {
    pub layout_loc: u32,
    pub kind: WebGLDataType,
    pub name: String,
}

pub struct ShaderAttributeView {
    pub layout_loc: nat,
    pub kind: WebGLDataType,
    pub name: Seq<char>,
}

impl View for ShaderAttribute {
    type V = ShaderAttributeView;

    open spec fn view(&self) -> ShaderAttributeView {
        ShaderAttributeView {
            layout_loc: self.layout_loc as nat,
            kind: self.kind,
            name: self.name@,
        }
    }
}

impl ShaderAttribute {
    /// The colour output that a fragment stage has when it declares no other:
    /// `vec4 frag_color` at location 0.
    pub fn get_default_frag_attribute() -> (attribute: Self)
        ensures
            attribute@ == (ShaderAttributeView {
                layout_loc: 0,
                kind: WebGLDataType::Vec4,
                name: "frag_color"@,
            }),
    {
        Self { layout_loc: 0, kind: WebGLDataType::Vec4, name: String::from_str("frag_color") }
    }
}

/// A value handed from the vertex stage to the fragment stage.
#[derive(Debug, Clone, PartialEq, Eq)]
pub struct ShaderVarying {
    pub interp: Option<String>,
    pub kind: WebGLDataType,
    pub name: String,
}

pub struct ShaderVaryingView {
    pub interp: Option<Seq<char>>,
    pub kind: WebGLDataType,
    pub name: Seq<char>,
}

impl View for ShaderVarying {
    type V = ShaderVaryingView;

    open spec fn view(&self) -> ShaderVaryingView {
        ShaderVaryingView {
            interp: match self.interp {
                Some(qualifier) => Some(qualifier@),
                None => None,
            },
            kind: self.kind,
            name: self.name@,
        }
    }
}

/// The direction of a function parameter.
#[derive(Debug, Clone, Copy, PartialEq, Eq, Structural)]
pub enum ParameterQualifier {
    In,
    Out,
    InOut,
}

/// One parameter of a shader function.
#[derive(Debug, Clone, PartialEq, Eq)]
pub struct FunctionParameter {
    pub qualifier: Option<ParameterQualifier>,
    pub kind: WebGLDataType,
    pub name: String,
    pub array_length: Option<u32>,
}

pub struct FunctionParameterView {
    pub qualifier: Option<ParameterQualifier>,
    pub kind: WebGLDataType,
    pub name: Seq<char>,
    pub array_length: Option<nat>,
}

impl View for FunctionParameter {
    type V = FunctionParameterView;

    open spec fn view(&self) -> FunctionParameterView {
        FunctionParameterView {
            qualifier: self.qualifier,
            kind: self.kind,
            name: self.name@,
            array_length: match self.array_length {
                Some(length) => Some(length as nat),
                None => None,
            },
        }
    }
}

/// How a function is defined: in place, or in a file of definitions.
#[derive(Debug, PartialEq, Eq)]
pub enum FunctionDefinitionType {
    InlineFn { return_type: WebGLDataType, parameters: String, body: String },
    ImportFn { path: String },
}

pub enum FunctionDefinitionTypeView {
    InlineFn { return_type: WebGLDataType, parameters: Seq<char>, body: Seq<char> },
    ImportFn { path: Seq<char> },
}

impl View for FunctionDefinitionType {
    type V = FunctionDefinitionTypeView;

    open spec fn view(&self) -> FunctionDefinitionTypeView {
        match self {
            FunctionDefinitionType::InlineFn { return_type, parameters, body } => {
                FunctionDefinitionTypeView::InlineFn {
                    return_type: *return_type,
                    parameters: parameters@,
                    body: body@,
                }
            },
            FunctionDefinitionType::ImportFn { path } => FunctionDefinitionTypeView::ImportFn {
                path: path@,
            },
        }
    }
}

impl Clone for FunctionDefinitionType {
    fn clone(&self) -> (copy: Self)
        ensures
            copy@ == self@,
    {
        match self {
            FunctionDefinitionType::InlineFn { return_type, parameters, body } => {
                FunctionDefinitionType::InlineFn {
                    return_type: *return_type,
                    parameters: parameters.clone(),
                    body: body.clone(),
                }
            },
            FunctionDefinitionType::ImportFn { path } => FunctionDefinitionType::ImportFn {
                path: path.clone(),
            },
        }
    }
}

/// A named shader function.
#[derive(Debug, PartialEq, Eq)]
pub struct FunctionDefinition {
    pub name: String,
    pub definition: FunctionDefinitionType,
}

pub struct FunctionDefinitionView {
    pub name: Seq<char>,
    pub definition: FunctionDefinitionTypeView,
}

impl View for FunctionDefinition {
    type V = FunctionDefinitionView;

    open spec fn view(&self) -> FunctionDefinitionView {
        FunctionDefinitionView { name: self.name@, definition: self.definition@ }
    }
}

impl Clone for FunctionDefinition {
    fn clone(&self) -> (copy: Self)
        ensures
            copy@ == self@,
    {
        FunctionDefinition { name: self.name.clone(), definition: self.definition.clone() }
    }
}

impl FunctionDefinition {
    /// The model of a function that carries its own text.
    pub open spec fn inline_view(
        name: Seq<char>,
        return_type: WebGLDataType,
        parameters: Seq<char>,
        body: Seq<char>,
    ) -> FunctionDefinitionView {
        FunctionDefinitionView {
            name,
            definition: FunctionDefinitionTypeView::InlineFn { return_type, parameters, body },
        }
    }

    /// A function that carries its own text.
    pub fn inline(
        name: &str,
        return_type: WebGLDataType,
        parameters: &str,
        body: &str,
    ) -> (definition: Self)
        ensures
            definition@ == Self::inline_view(name@, return_type, parameters@, body@),
    {
        FunctionDefinition {
            name: String::from_str(name),
            definition: FunctionDefinitionType::InlineFn {
                return_type,
                parameters: String::from_str(parameters),
                body: String::from_str(body),
            },
        }
    }
}

impl FunctionDefinitionView {
    /// Whether the definition carries its own text.
    pub open spec fn is_inline(self) -> bool {
        self.definition is InlineFn
    }
}

/// The first of `definitions` that has the name `name`.
pub open spec fn find_by_name(definitions: Seq<FunctionDefinitionView>, name: Seq<char>) -> Option<
    FunctionDefinitionView,
>
    decreases definitions.len(),
{
    if definitions.len() == 0 {
        None
    } else if definitions[0].name == name {
        Some(definitions[0])
    } else {
        find_by_name(definitions.drop_first(), name)
    }
}

/// What is found under a name has that name and is one of the definitions;
/// and something is found under every name that one of them has.
pub proof fn lemma_find_by_name(definitions: Seq<FunctionDefinitionView>, name: Seq<char>)
    ensures
        match find_by_name(definitions, name) {
            Some(found) => found.name == name && definitions.contains(found),
            None => forall|i: int|
                0 <= i < definitions.len() ==> (#[trigger] definitions[i]).name != name,
        },
    decreases definitions.len(),
{
    if definitions.len() > 0 {
        let rest = definitions.drop_first();
        lemma_find_by_name(rest, name);
        if definitions[0].name == name {
            assert(definitions.contains(definitions[0]));
        } else {
            match find_by_name(rest, name) {
                Some(found) => {
                    let i = choose|i: int| 0 <= i < rest.len() && rest[i] == found;
                    assert(definitions[i + 1] == found);
                },
                None => {
                    assert forall|i: int| 0 <= i < definitions.len() implies (
                    #[trigger] definitions[i]).name != name by {
                        if i > 0 {
                            assert(rest[i - 1] == definitions[i]);
                        }
                    }
                },
            }
        }
    }
}

/// Looks `name` up in `definitions`: the first entry of that name, if any.
pub fn find_function<'a>(definitions: &'a Vec<FunctionDefinition>, name: &String) -> (found: Option<
    &'a FunctionDefinition,
>)
    ensures
        match found {
            Some(definition) => find_by_name(view_each(definitions@), name@) == Some(definition@),
            None => find_by_name(view_each(definitions@), name@) is None,
        },
{
    let ghost all = view_each(definitions@);
    let mut i: usize = 0;
    assert(all.skip(0) =~= all);
    while i < definitions.len()
        invariant
            0 <= i <= definitions@.len(),
            all == view_each(definitions@),
            find_by_name(all, name@) == find_by_name(all.skip(i as int), name@),
        decreases definitions@.len() - i,
    {
        if definitions[i].name == *name {
            return Some(&definitions[i]);
        }
        assert(all.skip(i as int).drop_first() =~= all.skip(i + 1));
        i += 1;
    }
    None
}

/// A named program-global value.
#[derive(Debug, Clone, PartialEq, Eq)]
pub struct ShaderUniform {
    pub kind: WebGLDataType,
    pub name: String,
}

pub struct ShaderUniformView {
    pub kind: WebGLDataType,
    pub name: Seq<char>,
}

impl View for ShaderUniform {
    type V = ShaderUniformView;

    open spec fn view(&self) -> ShaderUniformView {
        ShaderUniformView { kind: self.kind, name: self.name@ }
    }
}

/// A named aggregate of uniforms with the `std140` layout. The order of its
/// members is the order in memory.
#[derive(Debug, Clone, PartialEq, Eq)]
pub struct ShaderUniformBlock {
    pub binding_number: u32,
    pub name: String,
    pub uniforms: Vec<ShaderUniform>,
}

pub struct ShaderUniformBlockView {
    pub binding_number: nat,
    pub name: Seq<char>,
    pub uniforms: Seq<ShaderUniformView>,
}

impl View for ShaderUniformBlock {
    type V = ShaderUniformBlockView;

    open spec fn view(&self) -> ShaderUniformBlockView {
        ShaderUniformBlockView {
            binding_number: self.binding_number as nat,
            name: self.name@,
            uniforms: view_each(self.uniforms@),
        }
    }
}

/// Free-standing uniforms and uniform blocks, each in declaration order.
#[derive(Debug, Clone, PartialEq, Eq)]
pub struct UniformCollection {
    pub uniforms: Vec<ShaderUniform>,
    pub uniform_blocks: Vec<ShaderUniformBlock>,
}

pub struct UniformCollectionView {
    pub uniforms: Seq<ShaderUniformView>,
    pub uniform_blocks: Seq<ShaderUniformBlockView>,
}

impl View for UniformCollection {
    type V = UniformCollectionView;

    open spec fn view(&self) -> UniformCollectionView {
        UniformCollectionView {
            uniforms: view_each(self.uniforms@),
            uniform_blocks: view_each(self.uniform_blocks@),
        }
    }
}

impl UniformCollection {
    /// A collection that declares nothing.
    pub fn new() -> (collection: Self)
        ensures
            collection@.uniforms == Seq::<ShaderUniformView>::empty(),
            collection@.uniform_blocks == Seq::<ShaderUniformBlockView>::empty(),
    {
        let collection = Self { uniforms: Vec::new(), uniform_blocks: Vec::new() };
        assert(collection@.uniforms =~= Seq::<ShaderUniformView>::empty());
        assert(collection@.uniform_blocks =~= Seq::<ShaderUniformBlockView>::empty());
        collection
    }
}

/// One of the two programs of a pipeline: what it imports, its body, its
/// attributes and its own uniforms.
#[derive(Debug, Clone, PartialEq, Eq)]
pub struct ShaderStage {
    pub import_fn: Vec<String>,
    pub main_fn: String,
    pub attributes: Vec<ShaderAttribute>,
    pub uniform_collection: UniformCollection,
}

pub struct ShaderStageView {
    pub import_fn: Seq<Seq<char>>,
    pub main_fn: Seq<char>,
    pub attributes: Seq<ShaderAttributeView>,
    pub uniform_collection: UniformCollectionView,
}

impl View for ShaderStage {
    type V = ShaderStageView;

    open spec fn view(&self) -> ShaderStageView {
        ShaderStageView {
            import_fn: view_each(self.import_fn@),
            main_fn: self.main_fn@,
            attributes: view_each(self.attributes@),
            uniform_collection: self.uniform_collection@,
        }
    }
}

/// The definitions that one file of shader functions holds.
#[derive(Debug, Clone, PartialEq, Eq)]
pub struct FunctionImports {
    pub function_definitions: Vec<FunctionDefinition>,
}

pub struct FunctionImportsView {
    pub function_definitions: Seq<FunctionDefinitionView>,
}

impl View for FunctionImports {
    type V = FunctionImportsView;

    open spec fn view(&self) -> FunctionImportsView {
        FunctionImportsView { function_definitions: view_each(self.function_definitions@) }
    }
}

/// A whole shader program: its varyings, the uniforms both stages share, the
/// functions it declares, and its two stages.
#[derive(Debug, Clone, PartialEq, Eq)]
pub struct ShaderSource {
    pub name: String,
    pub varyings: Vec<ShaderVarying>,
    pub common_uniforms: UniformCollection,
    pub imported_functions: Vec<FunctionDefinition>,
    pub vertex_shader: ShaderStage,
    pub fragment_shader: ShaderStage,
}

pub struct ShaderSourceView {
    pub name: Seq<char>,
    pub varyings: Seq<ShaderVaryingView>,
    pub common_uniforms: UniformCollectionView,
    pub imported_functions: Seq<FunctionDefinitionView>,
    pub vertex_shader: ShaderStageView,
    pub fragment_shader: ShaderStageView,
}

impl View for ShaderSource {
    type V = ShaderSourceView;

    open spec fn view(&self) -> ShaderSourceView {
        ShaderSourceView {
            name: self.name@,
            varyings: view_each(self.varyings@),
            common_uniforms: self.common_uniforms@,
            imported_functions: view_each(self.imported_functions@),
            vertex_shader: self.vertex_shader@,
            fragment_shader: self.fragment_shader@,
        }
    }
}

} // verus!
