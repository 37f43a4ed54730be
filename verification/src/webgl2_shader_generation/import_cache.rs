//! What has been learned, so far, of the files that a shader source imports
//! functions from: one entry for each path that was read.

use vstd::prelude::*;

use crate::webgl2_shader_definition::model::{FunctionImports, FunctionImportsView};

verus! {

/// What reading one file of function definitions gave.
#[derive(Debug, Clone, PartialEq, Eq)]
pub enum FileContents {
    /// The file was read and holds these definitions.
    Parsed(FunctionImports),
    /// The file was read, but its text is no list of function definitions.
    Malformed,
    /// The file could not be read.
    Unreadable,
}

pub enum FileContentsView {
    Parsed(FunctionImportsView),
    Malformed,
    Unreadable,
}

impl View for FileContents {
    type V = FileContentsView;

    open spec fn view(&self) -> FileContentsView {
        match self {
            FileContents::Parsed(imports) => FileContentsView::Parsed(imports@),
            FileContents::Malformed => FileContentsView::Malformed,
            FileContents::Unreadable => FileContentsView::Unreadable,
        }
    }
}

/// One entry of the cache: a path, and what reading it gave.
#[derive(Debug)]
struct CachedFile {
    path: String,
    contents: FileContents,
}

/// The files read during one resolution, keyed by path. A path has at most
/// one entry, so a file that is in the cache never has to be read again.
#[derive(Debug)]
pub struct ImportCache {
    files: Vec<CachedFile>,
}

spec fn distinct_paths(files: Seq<CachedFile>) -> bool {
    forall|i: int, j: int| 0 <= i < j < files.len() ==> files[i].path@ != files[j].path@
}

spec fn holds_at(files: Seq<CachedFile>, path: Seq<char>, i: int) -> bool {
    0 <= i < files.len() && files[i].path@ == path
}

spec fn index_of(files: Seq<CachedFile>, path: Seq<char>) -> int {
    choose|i: int| holds_at(files, path, i)
}

spec fn as_map(files: Seq<CachedFile>) -> Map<Seq<char>, FileContentsView> {
    Map::new(
        |path: Seq<char>| exists|i: int| holds_at(files, path, i),
        |path: Seq<char>| files[index_of(files, path)].contents@,
    )
}

spec fn paths_below(files: Seq<CachedFile>, count: int) -> Set<Seq<char>> {
    Set::new(|path: Seq<char>| exists|i: int| 0 <= i < count && holds_at(files, path, i))
}

proof fn lemma_paths_below(files: Seq<CachedFile>, count: int)
    requires
        distinct_paths(files),
        0 <= count <= files.len(),
    ensures
        paths_below(files, count).finite(),
        paths_below(files, count).len() == count,
    decreases count,
{
    if count == 0 {
        assert(paths_below(files, 0) =~= Set::<Seq<char>>::empty());
    } else {
        lemma_paths_below(files, count - 1);
        let last = files[count - 1].path@;
        assert(holds_at(files, last, count - 1));
        assert(paths_below(files, count) =~= paths_below(files, count - 1).insert(last));
        assert(!paths_below(files, count - 1).contains(last));
    }
}

proof fn lemma_entry(files: Seq<CachedFile>, i: int)
    requires
        distinct_paths(files),
        0 <= i < files.len(),
    ensures
        as_map(files).dom().contains(files[i].path@),
        as_map(files)[files[i].path@] == files[i].contents@,
{
    let path = files[i].path@;
    assert(holds_at(files, path, i));
    assert(holds_at(files, path, index_of(files, path)));
}

proof fn lemma_replaced(files: Seq<CachedFile>, i: int, entry: CachedFile)
    requires
        distinct_paths(files),
        0 <= i < files.len(),
        entry.path@ == files[i].path@,
    ensures
        distinct_paths(files.update(i, entry)),
        as_map(files.update(i, entry)) == as_map(files).insert(entry.path@, entry.contents@),
{
    let after = files.update(i, entry);
    let expected = as_map(files).insert(entry.path@, entry.contents@);
    assert forall|p: Seq<char>| #[trigger]
        as_map(after).dom().contains(p) implies expected.dom().contains(p) by {
        let k = choose|k: int| holds_at(after, p, k);
        assert(holds_at(files, p, k));
    }
    assert forall|p: Seq<char>| #[trigger]
        expected.dom().contains(p) implies as_map(after).dom().contains(p) && as_map(after)[p]
        == expected[p] by {
        if p == entry.path@ {
            lemma_entry(after, i);
        } else {
            let k = index_of(files, p);
            assert(holds_at(files, p, k));
            lemma_entry(after, k);
        }
    }
    assert(as_map(after) =~= expected);
}

proof fn lemma_added(files: Seq<CachedFile>, entry: CachedFile)
    requires
        distinct_paths(files),
        !as_map(files).dom().contains(entry.path@),
    ensures
        distinct_paths(files.push(entry)),
        as_map(files.push(entry)) == as_map(files).insert(entry.path@, entry.contents@),
{
    let after = files.push(entry);
    let expected = as_map(files).insert(entry.path@, entry.contents@);
    assert forall|i: int, j: int| 0 <= i < j < after.len() implies after[i].path@
        != after[j].path@ by {
        if j == files.len() {
            assert(holds_at(files, files[i].path@, i));
        }
    }
    assert forall|p: Seq<char>| #[trigger]
        as_map(after).dom().contains(p) implies expected.dom().contains(p) by {
        let k = choose|k: int| holds_at(after, p, k);
        if k < files.len() {
            assert(holds_at(files, p, k));
        }
    }
    assert forall|p: Seq<char>| #[trigger]
        expected.dom().contains(p) implies as_map(after).dom().contains(p) && as_map(after)[p]
        == expected[p] by {
        if p == entry.path@ {
            lemma_entry(after, files.len() as int);
        } else {
            let k = index_of(files, p);
            assert(holds_at(files, p, k));
            lemma_entry(after, k);
        }
    }
    assert(as_map(after) =~= expected);
}

fn position(files: &Vec<CachedFile>, path: &String) -> (found: Option<usize>)
    requires
        distinct_paths(files@),
    ensures
        match found {
            Some(i) => i < files@.len() && files@[i as int].path@ == path@,
            None => !as_map(files@).dom().contains(path@),
        },
{
    let mut i: usize = 0;
    while i < files.len()
        invariant
            0 <= i <= files@.len(),
            forall|k: int| 0 <= k < i ==> files@[k].path@ != path@,
        decreases files@.len() - i,
    {
        if files[i].path == *path {
            return Some(i);
        }
        i += 1;
    }
    assert(forall|k: int| !holds_at(files@, path@, k));
    None
}

impl View for ImportCache {
    type V = Map<Seq<char>, FileContentsView>;

    closed spec fn view(&self) -> Map<Seq<char>, FileContentsView> {
        as_map(self.files@)
    }
}

impl ImportCache {
    #[verifier::type_invariant]
    spec fn well_formed(&self) -> bool {
        distinct_paths(self.files@)
    }

    /// The cache holds nothing.
    pub fn new() -> (cache: Self)
        ensures
            cache@ == Map::<Seq<char>, FileContentsView>::empty(),
    {
        let cache = ImportCache { files: Vec::new() };
        assert(cache@ =~= Map::<Seq<char>, FileContentsView>::empty());
        cache
    }

    /// How many files the cache holds.
    pub fn len(&self) -> (count: usize)
        ensures
            self@.dom().finite(),
            count == self@.dom().len(),
    {
        proof {
            use_type_invariant(self);
            lemma_paths_below(self.files@, self.files@.len() as int);
            assert(paths_below(self.files@, self.files@.len() as int) =~= self@.dom());
        }
        self.files.len()
    }

    /// Whether the file at `path` has been read.
    pub fn contains_path(&self, path: &String) -> (held: bool)
        ensures
            held == self@.dom().contains(path@),
    {
        proof {
            use_type_invariant(self);
        }
        match position(&self.files, path) {
            Some(i) => {
                proof {
                    lemma_entry(self.files@, i as int);
                }
                true
            },
            None => false,
        }
    }

    /// What reading the file at `path` gave, if it has been read.
    pub fn get(&self, path: &String) -> (found: Option<&FileContents>)
        ensures
            match found {
                Some(contents) => self@.dom().contains(path@) && contents@ == self@[path@],
                None => !self@.dom().contains(path@),
            },
    {
        proof {
            use_type_invariant(self);
        }
        match position(&self.files, path) {
            Some(i) => {
                proof {
                    lemma_entry(self.files@, i as int);
                }
                Some(&self.files[i].contents)
            },
            None => None,
        }
    }

    /// Records what reading the file at `path` gave. An earlier entry for the
    /// same path is replaced; every other entry stays.
    pub fn insert(&mut self, path: String, contents: FileContents)
        ensures
            final(self)@ == old(self)@.insert(path@, contents@),
    {
        proof {
            use_type_invariant(&*self);
        }
        let mut files: Vec<CachedFile> = Vec::new();
        core::mem::swap(&mut self.files, &mut files);
        let entry = CachedFile { path, contents };
        match position(&files, &entry.path) {
            Some(i) => {
                proof {
                    lemma_replaced(files@, i as int, entry);
                }
                files.set(i, entry);
            },
            None => {
                proof {
                    lemma_added(files@, entry);
                }
                files.push(entry);
            },
        }
        core::mem::swap(&mut self.files, &mut files);
    }
}

} // verus!
