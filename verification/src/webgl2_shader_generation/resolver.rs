//! Turns the functions that a shader source declares into a flat list of
//! definitions that carry their own text.
//!
//! A declaration is either such a definition already, or a reference to a
//! function of a given name in a file at a given path. Reading files is not
//! done here: [`generate_imported_functions`] decides, from the declarations
//! and from the files read so far, what is to happen next. The caller reads
//! the file it is asked for, records the outcome in the cache, and asks again.

use vstd::prelude::*;
use vstd::string::*;

use super::import_cache::{FileContents, FileContentsView, ImportCache};
use crate::webgl2_shader_definition::model::{
    find_by_name, find_function, lemma_view_each_add, lemma_view_each_push, view_each,
    FunctionDefinition, FunctionDefinitionType, FunctionDefinitionTypeView,
    FunctionDefinitionView,
};

verus! {

/// Why a resolution failed.
#[derive(Debug, Clone, PartialEq, Eq)]
pub enum ResolveError {
    /// The file at `path` could not be read.
    FileReadError { path: String },
    /// The file at `path` holds no list of function definitions.
    ParseError { path: String },
    /// The file at `path` defines no function called `name`.
    FunctionNotFound { path: String, name: String },
}

pub enum ResolveErrorView {
    FileReadError { path: Seq<char> },
    ParseError { path: Seq<char> },
    FunctionNotFound { path: Seq<char>, name: Seq<char> },
}

impl View for ResolveError {
    type V = ResolveErrorView;

    open spec fn view(&self) -> ResolveErrorView {
        match self {
            ResolveError::FileReadError { path } => ResolveErrorView::FileReadError { path: path@ },
            ResolveError::ParseError { path } => ResolveErrorView::ParseError { path: path@ },
            ResolveError::FunctionNotFound { path, name } => ResolveErrorView::FunctionNotFound {
                path: path@,
                name: name@,
            },
        }
    }
}

impl ResolveErrorView {
    /// The error in words, with the path of the file and, where a function
    /// is missing, the name of the function.
    pub open spec fn message_text(self) -> Seq<char> {
        match self {
            ResolveErrorView::FileReadError { path } => "Could not read imported file | path: "@
                + path,
            ResolveErrorView::ParseError { path } => {
                "Could not deserialize imported function text | path: "@ + path
            },
            ResolveErrorView::FunctionNotFound { path, name } => {
                "Could not find function definition inside the imported file | path: "@ + path
                    + " | function: "@ + name
            },
        }
    }
}

impl ResolveError {
    /// Says in words what went wrong.
    pub fn message(&self) -> (text: String)
        ensures
            text@ == self@.message_text(),
    {
        match self {
            ResolveError::FileReadError { path } => {
                let mut text = String::from_str("Could not read imported file | path: ");
                text.append(path.as_str());
                text
            },
            ResolveError::ParseError { path } => {
                let mut text = String::from_str(
                    "Could not deserialize imported function text | path: ",
                );
                text.append(path.as_str());
                text
            },
            ResolveError::FunctionNotFound { path, name } => {
                let mut text = String::from_str(
                    "Could not find function definition inside the imported file | path: ",
                );
                text.append(path.as_str());
                text.append(" | function: ");
                text.append(name.as_str());
                text
            },
        }
    }
}

/// What a resolution has come to, with the files read so far.
#[derive(Debug, Clone, PartialEq, Eq)]
pub enum ImportStep {
    /// The file at `path` is referenced and has not been read: read it,
    /// record the outcome, and ask again.
    NeedFile { path: String },
    /// Every reference is resolved; these are the functions, in their order.
    Resolved { functions: Vec<FunctionDefinition> },
    /// The resolution cannot succeed.
    Failed { error: ResolveError },
}

pub enum ImportStepView {
    NeedFile { path: Seq<char> },
    Resolved { functions: Seq<FunctionDefinitionView> },
    Failed { error: ResolveErrorView },
}

impl View for ImportStep {
    type V = ImportStepView;

    open spec fn view(&self) -> ImportStepView {
        match self {
            ImportStep::NeedFile { path } => ImportStepView::NeedFile { path: path@ },
            ImportStep::Resolved { functions } => ImportStepView::Resolved {
                functions: view_each(functions@),
            },
            ImportStep::Failed { error } => ImportStepView::Failed { error: error@ },
        }
    }
}

/// The declarations that carry their own text, in declaration order.
pub open spec fn inline_entries(declared: Seq<FunctionDefinitionView>) -> Seq<
    FunctionDefinitionView,
> {
    declared.filter(|entry: FunctionDefinitionView| entry.is_inline())
}

/// What stands in the way of looking names up: going through the
/// declarations in order, the first reference to a file that is not read
/// yet, that could not be read, or that holds no definitions. `None` when
/// every referenced file has been read and holds definitions.
pub open spec fn first_unavailable(
    declared: Seq<FunctionDefinitionView>,
    files: Map<Seq<char>, FileContentsView>,
) -> Option<ImportStepView>
    decreases declared.len(),
{
    if declared.len() == 0 {
        None
    } else {
        match declared[0].definition {
            FunctionDefinitionTypeView::InlineFn { .. } => first_unavailable(
                declared.drop_first(),
                files,
            ),
            FunctionDefinitionTypeView::ImportFn { path } => {
                if !files.dom().contains(path) {
                    Some(ImportStepView::NeedFile { path })
                } else {
                    match files[path] {
                        FileContentsView::Unreadable => Some(
                            ImportStepView::Failed {
                                error: ResolveErrorView::FileReadError { path },
                            },
                        ),
                        FileContentsView::Malformed => Some(
                            ImportStepView::Failed { error: ResolveErrorView::ParseError { path } },
                        ),
                        FileContentsView::Parsed(_) => first_unavailable(
                            declared.drop_first(),
                            files,
                        ),
                    }
                }
            },
        }
    }
}

/// What a reference to the function `name` of the file at `path` stands
/// for: the first entry of that name in the file, which has to carry its own
/// text.
pub open spec fn imported_definition(
    path: Seq<char>,
    name: Seq<char>,
    files: Map<Seq<char>, FileContentsView>,
) -> Result<FunctionDefinitionView, ResolveErrorView> {
    match files[path] {
        FileContentsView::Parsed(imports) => match find_by_name(
            imports.function_definitions,
            name,
        ) {
            Some(definition) => if definition.is_inline() {
                Ok(definition)
            } else {
                Err(ResolveErrorView::FunctionNotFound { path, name })
            },
            None => Err(ResolveErrorView::FunctionNotFound { path, name }),
        },
        _ => Err(ResolveErrorView::FunctionNotFound { path, name }),
    }
}

/// What the references among the declarations stand for, in declaration
/// order; or the error of the first reference that stands for nothing.
pub open spec fn resolved_imports(
    declared: Seq<FunctionDefinitionView>,
    files: Map<Seq<char>, FileContentsView>,
) -> Result<Seq<FunctionDefinitionView>, ResolveErrorView>
    decreases declared.len(),
{
    if declared.len() == 0 {
        Ok(Seq::empty())
    } else {
        match resolved_imports(declared.drop_last(), files) {
            Err(error) => Err(error),
            Ok(found) => match declared.last().definition {
                FunctionDefinitionTypeView::InlineFn { .. } => Ok(found),
                FunctionDefinitionTypeView::ImportFn { path } => match imported_definition(
                    path,
                    declared.last().name,
                    files,
                ) {
                    Ok(definition) => Ok(found.push(definition)),
                    Err(error) => Err(error),
                },
            },
        }
    }
}

/// What a resolution of `declared` comes to when `files` is what has been
/// read: a file to read, a failure, or the flat list of functions, which
/// holds the inline declarations first and then what the references stand
/// for, each group in declaration order.
pub open spec fn import_step(
    declared: Seq<FunctionDefinitionView>,
    files: Map<Seq<char>, FileContentsView>,
) -> ImportStepView {
    match first_unavailable(declared, files) {
        Some(step) => step,
        None => match resolved_imports(declared, files) {
            Ok(found) => ImportStepView::Resolved { functions: inline_entries(declared) + found },
            Err(error) => ImportStepView::Failed { error },
        },
    }
}

/// Whether every file that `declared` refers to has been read and holds
/// definitions.
pub open spec fn all_files_parsed(
    declared: Seq<FunctionDefinitionView>,
    files: Map<Seq<char>, FileContentsView>,
) -> bool {
    forall|i: int|
        0 <= i < declared.len() ==> match (#[trigger] declared[i]).definition {
            FunctionDefinitionTypeView::InlineFn { .. } => true,
            FunctionDefinitionTypeView::ImportFn { path } => files.dom().contains(path)
                && files[path] is Parsed,
        }
}

/// Decides what a resolution of `source_imported_fn` comes to, given the
/// files in `cache`.
pub fn generate_imported_functions(
    source_imported_fn: &Vec<FunctionDefinition>,
    cache: &ImportCache,
) -> (step: ImportStep)
    ensures
        step@ == import_step(view_each(source_imported_fn@), cache@),
{
    let ghost declared = view_each(source_imported_fn@);
    let ghost files = cache@;
    let mut imported_fn: Vec<FunctionDefinition> = Vec::new();
    let mut i: usize = 0;
    assert(declared.take(0) =~= Seq::<FunctionDefinitionView>::empty());
    assert(declared.skip(0) =~= declared);
    assert(view_each(imported_fn@) =~= inline_entries(declared.take(0))) by {
        reveal(Seq::filter);
    }
    while i < source_imported_fn.len()
        invariant
            0 <= i <= source_imported_fn@.len(),
            declared == view_each(source_imported_fn@),
            files == cache@,
            view_each(imported_fn@) == inline_entries(declared.take(i as int)),
            first_unavailable(declared, files) == first_unavailable(
                declared.skip(i as int),
                files,
            ),
            all_files_parsed(declared.take(i as int), files),
        decreases source_imported_fn@.len() - i,
    {
        let entry = &source_imported_fn[i];
        proof {
            assert(declared.skip(i as int).drop_first() =~= declared.skip(i + 1));
            assert(declared.take(i + 1).drop_last() =~= declared.take(i as int));
            assert(declared.skip(i as int)[0] == entry@);
            assert(declared.take(i + 1).last() == entry@);
            reveal(Seq::filter);
            lemma_view_each_push(imported_fn@, *entry);
        }
        match &entry.definition {
            FunctionDefinitionType::InlineFn { .. } => {
                let copy = entry.clone();
                proof {
                    lemma_view_each_push(imported_fn@, copy);
                }
                imported_fn.push(copy);
            },
            FunctionDefinitionType::ImportFn { path } => {
                match cache.get(path) {
                    None => {
                        return ImportStep::NeedFile { path: path.clone() };
                    },
                    Some(FileContents::Unreadable) => {
                        return ImportStep::Failed {
                            error: ResolveError::FileReadError { path: path.clone() },
                        };
                    },
                    Some(FileContents::Malformed) => {
                        return ImportStep::Failed {
                            error: ResolveError::ParseError { path: path.clone() },
                        };
                    },
                    Some(FileContents::Parsed(_)) => {},
                }
            },
        }
        assert(all_files_parsed(declared.take(i + 1), files)) by {
            assert forall|k: int| 0 <= k < i + 1 implies match (#[trigger] declared.take(
                i + 1,
            )[k]).definition {
                FunctionDefinitionTypeView::InlineFn { .. } => true,
                FunctionDefinitionTypeView::ImportFn { path } => files.dom().contains(path)
                    && files[path] is Parsed,
            } by {
                if k < i {
                    assert(declared.take(i as int)[k] == declared.take(i + 1)[k]);
                }
            }
        }
        i += 1;
    }
    assert(declared.take(i as int) =~= declared);
    assert(declared.skip(i as int) =~= Seq::<FunctionDefinitionView>::empty());

    let mut found: Vec<FunctionDefinition> = Vec::new();
    let mut j: usize = 0;
    assert(declared.take(0) =~= Seq::<FunctionDefinitionView>::empty());
    assert(view_each(found@) =~= Seq::<FunctionDefinitionView>::empty());
    while j < source_imported_fn.len()
        invariant
            0 <= j <= source_imported_fn@.len(),
            declared == view_each(source_imported_fn@),
            files == cache@,
            all_files_parsed(declared, files),
            resolved_imports(declared.take(j as int), files) == Ok::<
                Seq<FunctionDefinitionView>,
                ResolveErrorView,
            >(view_each(found@)),
            first_unavailable(declared, files) is None,
            view_each(imported_fn@) == inline_entries(declared),
        decreases source_imported_fn@.len() - j,
    {
        let entry = &source_imported_fn[j];
        proof {
            assert(declared.take(j + 1).drop_last() =~= declared.take(j as int));
            assert(declared.take(j + 1).last() == entry@);
            assert(declared[j as int] == entry@);
        }
        match &entry.definition {
            FunctionDefinitionType::InlineFn { .. } => {},
            FunctionDefinitionType::ImportFn { path } => {
                let resolved = match cache.get(path) {
                    Some(FileContents::Parsed(imports)) => {
                        match find_function(&imports.function_definitions, &entry.name) {
                            Some(definition) => match &definition.definition {
                                FunctionDefinitionType::InlineFn { .. } => Some(definition.clone()),
                                FunctionDefinitionType::ImportFn { .. } => None,
                            },
                            None => None,
                        }
                    },
                    _ => None,
                };
                match resolved {
                    Some(definition) => {
                        proof {
                            lemma_view_each_push(found@, definition);
                        }
                        found.push(definition);
                    },
                    None => {
                        proof {
                            lemma_failure_stays(declared, files, j + 1);
                        }
                        return ImportStep::Failed {
                            error: ResolveError::FunctionNotFound {
                                path: path.clone(),
                                name: entry.name.clone(),
                            },
                        };
                    },
                }
            },
        }
        j += 1;
    }
    assert(declared.take(j as int) =~= declared);
    proof {
        lemma_view_each_add(imported_fn@, found@);
    }
    imported_fn.append(&mut found);
    ImportStep::Resolved { functions: imported_fn }
}

/// An error among the first `count` declarations is the error of them all.
pub proof fn lemma_failure_stays(
    declared: Seq<FunctionDefinitionView>,
    files: Map<Seq<char>, FileContentsView>,
    count: int,
)
    requires
        0 <= count <= declared.len(),
        resolved_imports(declared.take(count), files) is Err,
    ensures
        resolved_imports(declared, files) == resolved_imports(declared.take(count), files),
    decreases declared.len() - count,
{
    if count == declared.len() {
        assert(declared.take(count) =~= declared);
    } else {
        assert(declared.take(count + 1).drop_last() =~= declared.take(count));
        lemma_failure_stays(declared, files, count + 1);
    }
}

} // verus!
