//! From a shader source to the text of its two stages, in steps: the
//! functions are resolved, and then both stages are generated.
//!
//! As long as a file is missing, the caller is asked for it; see
//! [`generate_imported_functions`]. The first error ends the work, and no
//! text is given.

use vstd::prelude::*;
use vstd::string::*;

use super::import_cache::{FileContentsView, ImportCache};
use super::resolver::{
    generate_imported_functions, import_step, ImportStep, ImportStepView, ResolveError,
    ResolveErrorView,
};
use crate::webgl2_shader_definition::generator::{
    generate_vertex_fragment_shader, program_result, GenerateError, GenerateErrorView,
};
use crate::webgl2_shader_definition::model::{ShaderSource, ShaderSourceView};

verus! {

/// Why the stages of a shader source could not be generated.
#[derive(Debug, Clone, PartialEq, Eq)]
pub enum ShaderError {
    /// A function that the source declares could not be resolved.
    Resolve(ResolveError),
    /// The source cannot be rendered.
    Generate(GenerateError),
}

pub enum ShaderErrorView {
    Resolve(ResolveErrorView),
    Generate(GenerateErrorView),
}

impl View for ShaderError {
    type V = ShaderErrorView;

    open spec fn view(&self) -> ShaderErrorView {
        match self {
            ShaderError::Resolve(error) => ShaderErrorView::Resolve(error@),
            ShaderError::Generate(error) => ShaderErrorView::Generate(error@),
        }
    }
}

impl ShaderErrorView {
    /// The error in words.
    pub open spec fn message_text(self) -> Seq<char> {
        match self {
            ShaderErrorView::Resolve(error) => error.message_text(),
            ShaderErrorView::Generate(error) => error.message_text(),
        }
    }
}

impl ShaderError {
    /// Says in words what went wrong.
    pub fn message(&self) -> (text: String)
        ensures
            text@ == self@.message_text(),
    {
        match self {
            ShaderError::Resolve(error) => error.message(),
            ShaderError::Generate(error) => error.message(),
        }
    }
}

/// What the work on a shader source has come to, with the files read so
/// far.
#[derive(Debug, Clone, PartialEq, Eq)]
pub enum ShaderStep {
    /// The file at `path` is referenced and has not been read: read it,
    /// record the outcome, and ask again.
    NeedFile { path: String },
    /// Both stages are generated.
    Generated { vertex: String, fragment: String },
    /// The work cannot succeed.
    Failed { error: ShaderError },
}

pub enum ShaderStepView {
    NeedFile { path: Seq<char> },
    Generated { vertex: Seq<char>, fragment: Seq<char> },
    Failed { error: ShaderErrorView },
}

impl View for ShaderStep {
    type V = ShaderStepView;

    open spec fn view(&self) -> ShaderStepView {
        match self {
            ShaderStep::NeedFile { path } => ShaderStepView::NeedFile { path: path@ },
            ShaderStep::Generated { vertex, fragment } => ShaderStepView::Generated {
                vertex: vertex@,
                fragment: fragment@,
            },
            ShaderStep::Failed { error } => ShaderStepView::Failed { error: error@ },
        }
    }
}

/// What the work on `source` comes to when `files` is what has been read:
/// what the resolution of the declared functions comes to, and, once they
/// are resolved, what generating both stages with them gives.
pub open spec fn shader_step(
    source: ShaderSourceView,
    files: Map<Seq<char>, FileContentsView>,
) -> ShaderStepView {
    match import_step(source.imported_functions, files) {
        ImportStepView::NeedFile { path } => ShaderStepView::NeedFile { path },
        ImportStepView::Failed { error } => ShaderStepView::Failed {
            error: ShaderErrorView::Resolve(error),
        },
        ImportStepView::Resolved { functions } => match program_result(source, functions) {
            Ok(texts) => ShaderStepView::Generated { vertex: texts.0, fragment: texts.1 },
            Err(error) => ShaderStepView::Failed { error: ShaderErrorView::Generate(error) },
        },
    }
}

/// Resolves the functions that `source` declares and generates both
/// stages, as far as the files in `function_imports` allow.
pub fn generate_shader_str(source: &ShaderSource, function_imports: &ImportCache) -> (step:
    ShaderStep)
    ensures
        step@ == shader_step(source@, function_imports@),
{
    match generate_imported_functions(&source.imported_functions, function_imports) {
        ImportStep::NeedFile { path } => ShaderStep::NeedFile { path },
        ImportStep::Failed { error } => ShaderStep::Failed { error: ShaderError::Resolve(error) },
        ImportStep::Resolved { functions } => {
            match generate_vertex_fragment_shader(source, &functions) {
                Ok(texts) => ShaderStep::Generated { vertex: texts.0, fragment: texts.1 },
                Err(error) => ShaderStep::Failed { error: ShaderError::Generate(error) },
            }
        },
    }
}

} // verus!
