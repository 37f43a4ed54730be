//! What holds of every resolution.

use vstd::prelude::*;

use super::import_cache::FileContentsView;
use super::resolver::{
    all_files_parsed, first_unavailable, import_step, imported_definition, inline_entries,
    lemma_failure_stays, resolved_imports, ImportStepView, ResolveErrorView,
};
use crate::webgl2_shader_definition::generator::imported_function_text;
use crate::webgl2_shader_definition::model::{
    find_by_name, lemma_find_by_name, FunctionDefinitionTypeView, FunctionDefinitionView,
};

verus! {

/// The paths of the files that the declarations refer to.
pub open spec fn referenced_paths(declared: Seq<FunctionDefinitionView>) -> Set<Seq<char>> {
    Set::new(
        |path: Seq<char>|
            exists|i: int|
                0 <= i < declared.len() && (#[trigger] declared[i]).definition == (
                    FunctionDefinitionTypeView::ImportFn { path }
                ),
    )
}

/// Whether declaration `index` refers to a function that its file does not
/// define.
pub open spec fn is_missing(
    declared: Seq<FunctionDefinitionView>,
    files: Map<Seq<char>, FileContentsView>,
    index: int,
) -> bool {
    &&& 0 <= index < declared.len()
    &&& declared[index].definition is ImportFn
    &&& imported_definition(
        declared[index].definition->ImportFn_path,
        declared[index].name,
        files,
    ) is Err
}

proof fn lemma_unavailable(
    declared: Seq<FunctionDefinitionView>,
    files: Map<Seq<char>, FileContentsView>,
)
    ensures
        match first_unavailable(declared, files) {
            Some(ImportStepView::NeedFile { path }) => referenced_paths(declared).contains(path)
                && !files.dom().contains(path),
            Some(ImportStepView::Failed { error }) => match error {
                ResolveErrorView::FileReadError { path } => referenced_paths(declared).contains(
                    path,
                ) && files.dom().contains(path) && files[path] is Unreadable,
                ResolveErrorView::ParseError { path } => referenced_paths(declared).contains(path)
                    && files.dom().contains(path) && files[path] is Malformed,
                ResolveErrorView::FunctionNotFound { .. } => false,
            },
            Some(ImportStepView::Resolved { .. }) => false,
            None => all_files_parsed(declared, files),
        },
    decreases declared.len(),
{
    if declared.len() > 0 {
        let rest = declared.drop_first();
        lemma_unavailable(rest, files);
        assert forall|path: Seq<char>| referenced_paths(rest).contains(path) implies referenced_paths(
            declared,
        ).contains(path) by {
            let i = choose|i: int|
                0 <= i < rest.len() && (#[trigger] rest[i]).definition == (
                    FunctionDefinitionTypeView::ImportFn { path }
                );
            assert(declared[i + 1] == rest[i]);
        }
        match declared[0].definition {
            FunctionDefinitionTypeView::ImportFn { path } => {
                assert(referenced_paths(declared).contains(path));
            },
            _ => {},
        }
        if first_unavailable(declared, files) is None {
            assert forall|i: int| 0 <= i < declared.len() implies match (#[trigger] declared[i]).definition {
                FunctionDefinitionTypeView::InlineFn { .. } => true,
                FunctionDefinitionTypeView::ImportFn { path } => files.dom().contains(path)
                    && files[path] is Parsed,
            } by {
                if i > 0 {
                    assert(rest[i - 1] == declared[i]);
                }
            }
        }
    }
}

/// A resolution asks only for a file that the declarations refer to and
/// that the cache does not hold: what has been read is not read again.
pub proof fn lemma_needed_file_is_new(
    declared: Seq<FunctionDefinitionView>,
    files: Map<Seq<char>, FileContentsView>,
)
    requires
        import_step(declared, files) is NeedFile,
    ensures
        referenced_paths(declared).contains(import_step(declared, files)->NeedFile_path),
        !files.dom().contains(import_step(declared, files)->NeedFile_path),
{
    lemma_unavailable(declared, files);
}

/// A resolution comes to its list of functions only when every file that
/// the declarations refer to has been read and holds definitions.
pub proof fn lemma_resolved_has_every_file(
    declared: Seq<FunctionDefinitionView>,
    files: Map<Seq<char>, FileContentsView>,
)
    requires
        import_step(declared, files) is Resolved,
    ensures
        referenced_paths(declared).subset_of(files.dom()),
        all_files_parsed(declared, files),
{
    lemma_unavailable(declared, files);
    assert forall|path: Seq<char>| referenced_paths(declared).contains(path) implies files.dom().contains(
        path,
    ) by {
        let i = choose|i: int|
            0 <= i < declared.len() && (#[trigger] declared[i]).definition == (
                FunctionDefinitionTypeView::ImportFn { path }
            );
        assert(declared[i].definition is ImportFn);
    }
}

/// The cache after the first `count` of the files `reads` have been read,
/// starting from an empty cache, with `outcomes` as what reading them gave.
pub open spec fn cache_after(
    reads: Seq<Seq<char>>,
    outcomes: Seq<FileContentsView>,
    count: int,
) -> Map<Seq<char>, FileContentsView>
    decreases count,
{
    if count <= 0 {
        Map::empty()
    } else {
        cache_after(reads, outcomes, count - 1).insert(reads[count - 1], outcomes[count - 1])
    }
}

/// Whether `reads` are the files that a resolution of `declared` asks for,
/// one after the other, when it starts from an empty cache and each file
/// that it asks for is read and recorded.
pub open spec fn is_run(
    declared: Seq<FunctionDefinitionView>,
    reads: Seq<Seq<char>>,
    outcomes: Seq<FileContentsView>,
) -> bool {
    &&& reads.len() == outcomes.len()
    &&& forall|k: int|
        0 <= k < reads.len() ==> #[trigger] import_step(
            declared,
            cache_after(reads, outcomes, k),
        ) == (ImportStepView::NeedFile { path: reads[k] })
}

proof fn lemma_cache_after(reads: Seq<Seq<char>>, outcomes: Seq<FileContentsView>, count: int)
    requires
        0 <= count <= reads.len(),
    ensures
        cache_after(reads, outcomes, count).dom() == reads.take(count).to_set(),
    decreases count,
{
    if count == 0 {
        assert(reads.take(0).to_set() =~= Set::<Seq<char>>::empty());
        assert(cache_after(reads, outcomes, 0).dom() =~= Set::<Seq<char>>::empty());
    } else {
        lemma_cache_after(reads, outcomes, count - 1);
        let before = reads.take(count - 1);
        let now = reads.take(count);
        assert forall|path: Seq<char>| now.to_set().contains(path) <==> before.to_set().insert(
            reads[count - 1],
        ).contains(path) by {
            if now.to_set().contains(path) {
                let i = choose|i: int| 0 <= i < now.len() && now[i] == path;
                if i < count - 1 {
                    assert(before[i] == path);
                }
            }
            if before.to_set().contains(path) {
                let i = choose|i: int| 0 <= i < before.len() && before[i] == path;
                assert(now[i] == path);
            }
            if path == reads[count - 1] {
                assert(now[count - 1] == path);
            }
        }
        assert(cache_after(reads, outcomes, count).dom() =~= now.to_set());
    }
}

/// During one resolution no file is read twice, and no file is read that
/// the declarations do not refer to.
pub proof fn lemma_each_file_is_read_once(
    declared: Seq<FunctionDefinitionView>,
    reads: Seq<Seq<char>>,
    outcomes: Seq<FileContentsView>,
)
    requires
        is_run(declared, reads, outcomes),
    ensures
        reads.no_duplicates(),
        reads.to_set().subset_of(referenced_paths(declared)),
{
    assert forall|i: int, j: int| 0 <= i < j < reads.len() implies reads[i] != reads[j] by {
        let files = cache_after(reads, outcomes, j);
        assert(import_step(declared, files) == (ImportStepView::NeedFile { path: reads[j] }));
        lemma_needed_file_is_new(declared, files);
        lemma_cache_after(reads, outcomes, j);
        assert(reads.take(j)[i] == reads[i]);
        assert(reads.take(j).to_set().contains(reads[i]));
    }
    assert forall|path: Seq<char>| reads.to_set().contains(path) implies referenced_paths(
        declared,
    ).contains(path) by {
        let k = choose|k: int| 0 <= k < reads.len() && reads[k] == path;
        let files = cache_after(reads, outcomes, k);
        assert(import_step(declared, files) == (ImportStepView::NeedFile { path: reads[k] }));
        lemma_needed_file_is_new(declared, files);
    }
}

/// A resolution that comes to its list of functions has read each file
/// that the declarations refer to exactly once: as many files as there are
/// distinct paths, however many references there are.
pub proof fn lemma_reads_are_the_distinct_paths(
    declared: Seq<FunctionDefinitionView>,
    reads: Seq<Seq<char>>,
    outcomes: Seq<FileContentsView>,
)
    requires
        is_run(declared, reads, outcomes),
        import_step(declared, cache_after(reads, outcomes, reads.len() as int)) is Resolved,
    ensures
        reads.no_duplicates(),
        reads.to_set() == referenced_paths(declared),
        referenced_paths(declared).finite(),
        reads.len() == referenced_paths(declared).len(),
{
    lemma_each_file_is_read_once(declared, reads, outcomes);
    let files = cache_after(reads, outcomes, reads.len() as int);
    lemma_resolved_has_every_file(declared, files);
    lemma_cache_after(reads, outcomes, reads.len() as int);
    assert(reads.take(reads.len() as int) =~= reads);
    assert(reads.to_set() =~= referenced_paths(declared));
    reads.unique_seq_to_set();
}

/// In the list that a resolution comes to, the inline declarations stand
/// first, in declaration order, and behind them what the references stand
/// for, in declaration order. Every entry carries its own text.
pub proof fn lemma_inline_entries_come_first(
    declared: Seq<FunctionDefinitionView>,
    files: Map<Seq<char>, FileContentsView>,
)
    requires
        import_step(declared, files) is Resolved,
    ensures
        resolved_imports(declared, files) is Ok,
        import_step(declared, files)->Resolved_functions.take(
            inline_entries(declared).len() as int,
        ) == inline_entries(declared),
        import_step(declared, files)->Resolved_functions.skip(
            inline_entries(declared).len() as int,
        ) == resolved_imports(declared, files)->Ok_0,
        forall|i: int|
            0 <= i < import_step(declared, files)->Resolved_functions.len() ==> (
            #[trigger] import_step(declared, files)->Resolved_functions[i]).is_inline(),
{
    lemma_unavailable(declared, files);
    let inline = inline_entries(declared);
    let found = resolved_imports(declared, files)->Ok_0;
    let functions = import_step(declared, files)->Resolved_functions;
    assert(functions == inline + found);
    assert(functions.take(inline.len() as int) =~= inline);
    assert(functions.skip(inline.len() as int) =~= found);
    lemma_inline_entries_are_inline(declared);
    lemma_resolved_imports_are_inline(declared, files);
}

proof fn lemma_inline_entries_are_inline(declared: Seq<FunctionDefinitionView>)
    ensures
        forall|i: int|
            0 <= i < inline_entries(declared).len() ==> (#[trigger] inline_entries(
                declared,
            )[i]).is_inline(),
    decreases declared.len(),
{
    reveal(Seq::filter);
    if declared.len() > 0 {
        lemma_inline_entries_are_inline(declared.drop_last());
    }
}

proof fn lemma_resolved_imports_are_inline(
    declared: Seq<FunctionDefinitionView>,
    files: Map<Seq<char>, FileContentsView>,
)
    requires
        resolved_imports(declared, files) is Ok,
    ensures
        forall|i: int|
            0 <= i < resolved_imports(declared, files)->Ok_0.len() ==> (#[trigger] resolved_imports(
                declared,
                files,
            )->Ok_0[i]).is_inline(),
    decreases declared.len(),
{
    if declared.len() > 0 {
        lemma_resolved_imports_are_inline(declared.drop_last(), files);
    }
}

proof fn lemma_none_missing(
    declared: Seq<FunctionDefinitionView>,
    files: Map<Seq<char>, FileContentsView>,
)
    requires
        forall|k: int| 0 <= k < declared.len() ==> !is_missing(declared, files, k),
    ensures
        resolved_imports(declared, files) is Ok,
    decreases declared.len(),
{
    if declared.len() > 0 {
        let before = declared.drop_last();
        assert forall|k: int| 0 <= k < before.len() implies !is_missing(before, files, k) by {
            assert(!is_missing(declared, files, k));
        }
        lemma_none_missing(before, files);
        assert(!is_missing(declared, files, declared.len() - 1));
    }
}

/// A reference to a function that its file does not define makes the
/// resolution fail with `FunctionNotFound`, and the error names the path
/// and the function of the first such reference.
pub proof fn lemma_missing_function_is_reported(
    declared: Seq<FunctionDefinitionView>,
    files: Map<Seq<char>, FileContentsView>,
    index: int,
)
    requires
        all_files_parsed(declared, files),
        is_missing(declared, files, index),
        forall|k: int| 0 <= k < index ==> !is_missing(declared, files, k),
    ensures
        import_step(declared, files) == (ImportStepView::Failed {
            error: ResolveErrorView::FunctionNotFound {
                path: declared[index].definition->ImportFn_path,
                name: declared[index].name,
            },
        }),
{
    lemma_all_parsed(declared, files);
    let before = declared.take(index);
    assert forall|k: int| 0 <= k < before.len() implies !is_missing(before, files, k) by {
        assert(!is_missing(declared, files, k));
    }
    lemma_none_missing(before, files);
    assert(declared.take(index + 1).drop_last() =~= before);
    lemma_failure_stays(declared, files, index + 1);
}

proof fn lemma_all_parsed(
    declared: Seq<FunctionDefinitionView>,
    files: Map<Seq<char>, FileContentsView>,
)
    requires
        all_files_parsed(declared, files),
    ensures
        first_unavailable(declared, files) is None,
    decreases declared.len(),
{
    if declared.len() > 0 {
        let rest = declared.drop_first();
        assert(declared[0].definition is ImportFn ==> files.dom().contains(
            declared[0].definition->ImportFn_path,
        ));
        assert forall|i: int| 0 <= i < rest.len() implies match (#[trigger] rest[i]).definition {
            FunctionDefinitionTypeView::InlineFn { .. } => true,
            FunctionDefinitionTypeView::ImportFn { path } => files.dom().contains(path)
                && files[path] is Parsed,
        } by {
            assert(rest[i] == declared[i + 1]);
        }
        lemma_all_parsed(rest, files);
    }
}

/// A resolution fails with `FunctionNotFound` only for a reference among
/// the declarations whose file was read and does not define the function.
pub proof fn lemma_function_not_found_is_missing(
    declared: Seq<FunctionDefinitionView>,
    files: Map<Seq<char>, FileContentsView>,
    path: Seq<char>,
    name: Seq<char>,
)
    requires
        import_step(declared, files) == (ImportStepView::Failed {
            error: ResolveErrorView::FunctionNotFound { path, name },
        }),
    ensures
        exists|index: int|
            is_missing(declared, files, index) && (#[trigger] declared[index]).definition == (
                FunctionDefinitionTypeView::ImportFn { path }
            ) && declared[index].name == name,
        files.dom().contains(path),
        files[path] is Parsed,
{
    lemma_unavailable(declared, files);
    lemma_error_is_missing(declared, files);
    let index = choose|index: int|
        is_missing(declared, files, index) && (#[trigger] declared[index]).definition == (
            FunctionDefinitionTypeView::ImportFn { path }
        ) && declared[index].name == name;
    assert(declared[index].definition is ImportFn);
}

proof fn lemma_error_is_missing(
    declared: Seq<FunctionDefinitionView>,
    files: Map<Seq<char>, FileContentsView>,
)
    requires
        resolved_imports(declared, files) is Err,
    ensures
        resolved_imports(declared, files)->Err_0 is FunctionNotFound,
        exists|index: int|
            is_missing(declared, files, index) && (#[trigger] declared[index]).definition == (
                FunctionDefinitionTypeView::ImportFn {
                    path: resolved_imports(declared, files)->Err_0->FunctionNotFound_path,
                }
            ) && declared[index].name == resolved_imports(
                declared,
                files,
            )->Err_0->FunctionNotFound_name,
    decreases declared.len(),
{
    let before = declared.drop_last();
    if resolved_imports(before, files) is Err {
        lemma_error_is_missing(before, files);
        let index = choose|index: int|
            is_missing(before, files, index) && (#[trigger] before[index]).definition == (
                FunctionDefinitionTypeView::ImportFn {
                    path: resolved_imports(before, files)->Err_0->FunctionNotFound_path,
                }
            ) && before[index].name == resolved_imports(
                before,
                files,
            )->Err_0->FunctionNotFound_name;
        assert(declared[index] == before[index]);
        assert(is_missing(declared, files, index));
    } else {
        let last = declared.len() - 1;
        assert(is_missing(declared, files, last));
        assert(declared[last] == declared.last());
    }
}

proof fn lemma_inline_entry_is_kept(declared: Seq<FunctionDefinitionView>, index: int)
    requires
        0 <= index < declared.len(),
        declared[index].is_inline(),
    ensures
        inline_entries(declared).contains(declared[index]),
    decreases declared.len(),
{
    reveal(Seq::filter);
    let before = declared.drop_last();
    if index < declared.len() - 1 {
        lemma_inline_entry_is_kept(before, index);
        let at = choose|at: int|
            0 <= at < inline_entries(before).len() && inline_entries(before)[at] == declared[index];
        assert(inline_entries(declared)[at] == declared[index]);
    } else {
        let last = inline_entries(before).len() as int;
        assert(inline_entries(declared)[last] == declared[index]);
    }
}

proof fn lemma_reference_is_resolved(
    declared: Seq<FunctionDefinitionView>,
    files: Map<Seq<char>, FileContentsView>,
    index: int,
)
    requires
        0 <= index < declared.len(),
        !declared[index].is_inline(),
        resolved_imports(declared, files) is Ok,
    ensures
        exists|at: int|
            0 <= at < resolved_imports(declared, files)->Ok_0.len() && (#[trigger] resolved_imports(
                declared,
                files,
            )->Ok_0[at]).name == declared[index].name,
    decreases declared.len(),
{
    let before = declared.drop_last();
    let found = resolved_imports(declared, files)->Ok_0;
    if index < declared.len() - 1 {
        lemma_reference_is_resolved(before, files, index);
        let at = choose|at: int|
            0 <= at < resolved_imports(before, files)->Ok_0.len() && (#[trigger] resolved_imports(
                before,
                files,
            )->Ok_0[at]).name == declared[index].name;
        assert(found[at] == resolved_imports(before, files)->Ok_0[at]);
    } else {
        let path = declared[index].definition->ImportFn_path;
        let name = declared[index].name;
        match files[path] {
            FileContentsView::Parsed(imports) => {
                lemma_find_by_name(imports.function_definitions, name);
            },
            _ => {},
        }
        let last = found.len() - 1;
        assert(found[last].name == name);
    }
}

/// Resolution gives the generator what it needs: once a resolution has
/// come to its list of functions, every function that the source declares,
/// with its text or by reference, is found in that list with its text. A
/// stage that imports declared functions only is never short of one.
pub proof fn lemma_declared_function_is_resolved(
    declared: Seq<FunctionDefinitionView>,
    files: Map<Seq<char>, FileContentsView>,
    index: int,
)
    requires
        import_step(declared, files) is Resolved,
        0 <= index < declared.len(),
    ensures
        imported_function_text(
            declared[index].name,
            import_step(declared, files)->Resolved_functions,
        ) is Ok,
{
    lemma_inline_entries_come_first(declared, files);
    let functions = import_step(declared, files)->Resolved_functions;
    let inline = inline_entries(declared);
    let found = resolved_imports(declared, files)->Ok_0;
    let name = declared[index].name;
    assert(functions == inline + found) by {
        lemma_unavailable(declared, files);
    }
    if declared[index].is_inline() {
        lemma_inline_entry_is_kept(declared, index);
        let at = choose|at: int| 0 <= at < inline.len() && inline[at] == declared[index];
        assert(functions[at].name == name);
    } else {
        lemma_reference_is_resolved(declared, files, index);
        let at = choose|at: int| 0 <= at < found.len() && (#[trigger] found[at]).name == name;
        assert(functions[inline.len() + at].name == name);
    }
    lemma_find_by_name(functions, name);
    let entry = find_by_name(functions, name)->0;
    let place = choose|place: int| 0 <= place < functions.len() && functions[place] == entry;
    assert(functions[place].is_inline());
}

} // verus!
