//! The writer: each entity's statement is appended to the entity's file,
//! unless the file holds it already. What is in a file is never changed or
//! removed, so a second run over the same catalog changes nothing.

use vstd::prelude::*;
use vstd::view::View as _;
use crate::error::SchemaError;
use crate::locations::{Entity, StatementLocation};
use crate::text::{contains, contains_str, occurs_at};

verus! {

/// What is appended to a file that holds `existing` (`None`: there is no
/// such file yet) when `statement` is written to it: nothing where the
/// file holds the statement already, and else the statement and a line
/// break.
pub open spec fn appended(existing: Option<Seq<char>>, statement: Seq<char>) -> Option<Seq<char>> {
    match existing {
        Some(content) => if contains(content, statement) {
            None
        } else {
            Some(statement.push('\n'))
        },
        None => Some(statement.push('\n')),
    }
}

/// What `files` holds under `path`.
pub open spec fn content_at(files: Map<Seq<char>, Seq<char>>, path: Seq<char>) -> Option<
    Seq<char>,
> {
    if files.dom().contains(path) {
        Some(files[path])
    } else {
        None
    }
}

/// The files after `statement` is written to `path`.
pub open spec fn write_one(
    files: Map<Seq<char>, Seq<char>>,
    path: Seq<char>,
    statement: Seq<char>,
) -> Map<Seq<char>, Seq<char>> {
    match appended(content_at(files, path), statement) {
        Some(text) => files.insert(
            path,
            match content_at(files, path) {
                Some(content) => content + text,
                None => text,
            },
        ),
        None => files,
    }
}

/// The files after the first `upto` entities of `catalog` are written, in
/// the order of the catalog, each to its file. An entity that has no file
/// is passed over.
pub open spec fn write_all(files: Map<Seq<char>, Seq<char>>, catalog: Seq<Entity>, upto: int) -> Map<
    Seq<char>,
    Seq<char>,
>
    decreases upto,
{
    if upto <= 0 || upto > catalog.len() {
        files
    } else {
        let before = write_all(files, catalog, upto - 1);
        match catalog[upto - 1].path(catalog) {
            Some(path) => write_one(before, path, catalog[upto - 1].rendered()),
            None => before,
        }
    }
}

/// Every one of the first `upto` entities of `catalog` has a file.
pub open spec fn placed(catalog: Seq<Entity>, upto: int) -> bool {
    forall|i: int| 0 <= i < upto ==> (#[trigger] catalog[i]).path(catalog) is Some
}

/// What is to be appended to a file that holds `existing` (`None`: there
/// is no such file yet) when `statement` is written to it.
pub fn pending_append(existing: Option<&str>, statement: &str) -> (r: Option<String>)
    ensures
        r.deep_view() == appended(existing.deep_view(), statement@),
{
    let present = match existing {
        Some(content) => contains_str(content, statement),
        None => false,
    };
    if present {
        None
    } else {
        let mut text = String::from_str(statement);
        text.push('\n');
        Some(text)
    }
}

/// One file of an output tree.
struct OutputFile {
    path: String,
    content: String,
}

/// The content by path of a sequence of files, a later file going before
/// an earlier one of the same path.
spec fn content_by_path(files: Seq<OutputFile>) -> Map<Seq<char>, Seq<char>>
    decreases files.len(),
{
    if files.len() == 0 {
        Map::empty()
    } else {
        content_by_path(files.drop_last()).insert(files.last().path@, files.last().content@)
    }
}

/// No file at or after `from` has the path `path`.
spec fn absent_from(files: Seq<OutputFile>, path: Seq<char>, from: int) -> bool {
    forall|k: int| from <= k < files.len() ==> (#[trigger] files[k]).path@ != path
}

/// A path that no file has is not in the map.
proof fn lemma_absent(files: Seq<OutputFile>, path: Seq<char>)
    requires
        absent_from(files, path, 0),
    ensures
        !content_by_path(files).dom().contains(path),
    decreases files.len(),
{
    if files.len() > 0 {
        assert(files.last() == files[files.len() - 1]);
        assert forall|k: int| 0 <= k < files.drop_last().len() implies (
        #[trigger] files.drop_last()[k]).path@ != path by {
            assert(files.drop_last()[k] == files[k]);
        }
        lemma_absent(files.drop_last(), path);
    }
}

/// The map holds, under the path of the last file of that path, that
/// file's content.
proof fn lemma_present(files: Seq<OutputFile>, at: int)
    requires
        0 <= at < files.len(),
        absent_from(files, files[at].path@, at + 1),
    ensures
        content_by_path(files).dom().contains(files[at].path@),
        content_by_path(files)[files[at].path@] == files[at].content@,
    decreases files.len(),
{
    if at < files.len() - 1 {
        let rest = files.drop_last();
        assert(rest[at] == files[at]);
        assert forall|k: int| at + 1 <= k < rest.len() implies (#[trigger] rest[k]).path@
            != rest[at].path@ by {
            assert(rest[k] == files[k]);
        }
        lemma_present(rest, at);
        assert(files.last() == files[files.len() - 1]);
    }
}

/// Replacing the last file of a path by one of the same path replaces the
/// content that the map holds under the path.
proof fn lemma_replace(files: Seq<OutputFile>, at: int, file: OutputFile)
    requires
        0 <= at < files.len(),
        file.path@ == files[at].path@,
        absent_from(files, files[at].path@, at + 1),
    ensures
        content_by_path(files.update(at, file)) == content_by_path(files).insert(
            file.path@,
            file.content@,
        ),
    decreases files.len(),
{
    let after = files.update(at, file);
    if at == files.len() - 1 {
        assert(after.drop_last() =~= files.drop_last());
        assert(content_by_path(after) =~= content_by_path(files).insert(
            file.path@,
            file.content@,
        ));
    } else {
        let rest = files.drop_last();
        assert(rest[at] == files[at]);
        assert forall|k: int| at + 1 <= k < rest.len() implies (#[trigger] rest[k]).path@
            != rest[at].path@ by {
            assert(rest[k] == files[k]);
        }
        lemma_replace(rest, at, file);
        assert(after.drop_last() =~= rest.update(at, file));
        assert(after.last() == files.last());
        assert(files.last() == files[files.len() - 1]);
        assert(content_by_path(after) =~= content_by_path(files).insert(
            file.path@,
            file.content@,
        ));
    }
}

/// The paths under which the map holds something are the paths of the
/// files.
proof fn lemma_paths(files: Seq<OutputFile>, path: Seq<char>)
    ensures
        content_by_path(files).dom().contains(path) <==> exists|k: int|
            0 <= k < files.len() && (#[trigger] files[k]).path@ == path,
    decreases files.len(),
{
    if files.len() > 0 {
        let rest = files.drop_last();
        lemma_paths(rest, path);
        assert(files.last() == files[files.len() - 1]);
        if content_by_path(files).dom().contains(path) {
            if files.last().path@ != path {
                let k = choose|k: int| 0 <= k < rest.len() && (#[trigger] rest[k]).path@ == path;
                assert(files[k] == rest[k]);
            }
        }
        if exists|k: int| 0 <= k < files.len() && (#[trigger] files[k]).path@ == path {
            let k = choose|k: int| 0 <= k < files.len() && (#[trigger] files[k]).path@ == path;
            if k < files.len() - 1 {
                assert(rest[k] == files[k]);
            }
        }
    }
}

/// The files of an output tree, in memory: content by path.
pub struct FileTree {
    files: Vec<OutputFile>,
}

impl vstd::view::View for FileTree {
    type V = Map<Seq<char>, Seq<char>>;

    closed spec fn view(&self) -> Map<Seq<char>, Seq<char>> {
        content_by_path(self.files@)
    }
}

impl FileTree {
    /// No two files have the same path.
    #[verifier::type_invariant]
    spec fn distinct(self) -> bool {
        forall|i: int, j: int|
            0 <= i < j < self.files.len() ==> (#[trigger] self.files[i]).path@ != (
            #[trigger] self.files[j]).path@
    }

    /// A tree without files.
    pub fn new() -> (tree: FileTree)
        ensures
            tree@ == Map::<Seq<char>, Seq<char>>::empty(),
    {
        FileTree { files: Vec::new() }
    }

    /// The index of the last file whose path is `path`.
    fn position(&self, path: &str) -> (r: Option<usize>)
        ensures
            match r {
                Some(at) => at < self.files.len() && self.files[at as int].path@ == path@
                    && absent_from(self.files@, path@, at + 1),
                None => absent_from(self.files@, path@, 0),
            },
    {
        let mut i: usize = self.files.len();
        while i > 0
            invariant
                i <= self.files.len(),
                absent_from(self.files@, path@, i as int),
            decreases i,
        {
            i -= 1;
            if crate::text::str_eq(self.files[i].path.as_str(), path) {
                return Some(i);
            }
        }
        None
    }

    /// What the tree holds under `path`.
    pub fn get(&self, path: &str) -> (r: Option<&str>)
        ensures
            r.deep_view() == content_at(self@, path@),
    {
        match self.position(path) {
            Some(at) => {
                proof {
                    lemma_present(self.files@, at as int);
                }
                Some(self.files[at].content.as_str())
            },
            None => {
                proof {
                    lemma_absent(self.files@, path@);
                }
                None
            },
        }
    }

    /// Appends `text` to the file `path`, which is created where the tree
    /// has no such file.
    pub fn append(&mut self, path: &str, text: &str)
        ensures
            final(self)@ == old(self)@.insert(
                path@,
                match content_at(old(self)@, path@) {
                    Some(content) => content + text@,
                    None => text@,
                },
            ),
    {
        proof {
            use_type_invariant(&*self);
        }
        let found = self.position(path);
        let mut files: Vec<OutputFile> = Vec::new();
        std::mem::swap(&mut files, &mut self.files);
        match found {
            Some(at) => {
                let mut content = files[at].content.clone();
                content.append(text);
                let file = OutputFile { path: String::from_str(path), content };
                proof {
                    lemma_present(files@, at as int);
                    lemma_replace(files@, at as int, file);
                }
                files.set(at, file);
            },
            None => {
                let file = OutputFile {
                    path: String::from_str(path),
                    content: String::from_str(text),
                };
                proof {
                    lemma_absent(files@, path@);
                    assert(files@.push(file).drop_last() =~= files@);
                }
                files.push(file);
            },
        }
        self.files = files;
    }

    /// The paths of the files, each once, in the order in which the files
    /// were created.
    pub fn paths(&self) -> (r: Vec<String>)
        ensures
            r.deep_view().no_duplicates(),
            forall|path: Seq<char>| r.deep_view().contains(path) <==> self@.dom().contains(path),
    {
        proof {
            use_type_invariant(self);
        }
        let mut r: Vec<String> = Vec::new();
        let mut i: usize = 0;
        while i < self.files.len()
            invariant
                i <= self.files.len(),
                r.len() == i,
                forall|k: int| 0 <= k < i ==> (#[trigger] r[k])@ == self.files[k].path@,
            decreases self.files.len() - i,
        {
            r.push(self.files[i].path.clone());
            i += 1;
        }
        proof {
            let listed = r.deep_view();
            assert forall|a: int, b: int| 0 <= a < listed.len() && 0 <= b < listed.len() && a
                != b implies listed[a] != listed[b] by {
                assert(listed[a] == r[a]@ && listed[b] == r[b]@);
                assert(self.files[a].path@ != self.files[b].path@);
            }
            assert forall|path: Seq<char>| listed.contains(path) <==> self@.dom().contains(
                path,
            ) by {
                lemma_paths(self.files@, path);
                if listed.contains(path) {
                    let k = choose|k: int| 0 <= k < listed.len() && listed[k] == path;
                    assert(listed[k] == r[k]@);
                    assert(self.files@[k].path@ == path);
                }
                if self@.dom().contains(path) {
                    let k = choose|k: int|
                        0 <= k < self.files@.len() && (#[trigger] self.files@[k]).path@ == path;
                    assert(listed[k] == r[k]@);
                }
            }
        }
        r
    }
}

/// Writes the entities of the catalog `nodes`, in order, each to its
/// file in `tree`, and returns the files' paths, one for each entity. An
/// entity that has no file ends the run: what was written for the entities
/// before it stays.
pub fn write_nodes(nodes: &[StatementLocation], tree: &mut FileTree) -> (r: Result<
    Vec<String>,
    SchemaError,
>)
    ensures
        match r {
            Ok(paths) => {
                &&& placed(nodes.deep_view(), nodes.len() as int)
                &&& final(tree)@ == write_all(old(tree)@, nodes.deep_view(), nodes.len() as int)
                &&& paths.len() == nodes.len()
                &&& forall|i: int|
                    0 <= i < nodes.len() ==> nodes.deep_view()[i].path(nodes.deep_view()) == Some(
                        (#[trigger] paths[i])@,
                    )
            },
            Err(e) => {
                &&& e == SchemaError::UnresolvedReference
                &&& exists|k: int|
                    {
                        &&& 0 <= k < nodes.len()
                        &&& placed(nodes.deep_view(), k)
                        &&& (#[trigger] nodes.deep_view()[k]).path(nodes.deep_view()) is None
                        &&& final(tree)@ == write_all(old(tree)@, nodes.deep_view(), k)
                    }
            },
        },
{
    let ghost catalog = nodes.deep_view();
    let mut paths: Vec<String> = Vec::new();
    let mut i: usize = 0;
    while i < nodes.len()
        invariant
            i <= nodes.len(),
            catalog == nodes.deep_view(),
            placed(catalog, i as int),
            tree@ == write_all(old(tree)@, catalog, i as int),
            paths.len() == i,
            forall|k: int| 0 <= k < i ==> catalog[k].path(catalog) == Some((#[trigger] paths[k])@),
        decreases nodes.len() - i,
    {
        assert(catalog[i as int] == nodes[i as int]@);
        let path = match nodes[i].path(nodes) {
            Ok(path) => path,
            Err(e) => {
                assert(catalog[i as int].path(catalog) is None);
                return Err(e);
            },
        };
        let statement = nodes[i].sql();
        match pending_append(tree.get(path.as_str()), statement.as_str()) {
            Some(text) => tree.append(path.as_str(), text.as_str()),
            None => {},
        }
        paths.push(path);
        i += 1;
    }
    Ok(paths)
}

/// The file `path` is there and holds `statement`.
pub open spec fn holds(files: Map<Seq<char>, Seq<char>>, path: Seq<char>, statement: Seq<char>) -> bool {
    files.dom().contains(path) && contains(files[path], statement)
}

/// What a text holds, it still holds after something is appended to it.
pub proof fn lemma_contains_after_append(content: Seq<char>, statement: Seq<char>, text: Seq<char>)
    requires
        contains(content, statement),
    ensures
        contains(content + text, statement),
{
    let i = choose|i: int| occurs_at(content, statement, i);
    assert((content + text).subrange(i, i + statement.len()) =~= content.subrange(
        i,
        i + statement.len(),
    ));
    assert(occurs_at(content + text, statement, i));
}

/// A text to which a statement and more is appended holds the statement.
pub proof fn lemma_contains_appended(content: Seq<char>, statement: Seq<char>, rest: Seq<char>)
    ensures
        contains(content + (statement + rest), statement),
{
    let i = content.len() as int;
    assert((content + (statement + rest)).subrange(i, i + statement.len()) =~= statement);
    assert(occurs_at(content + (statement + rest), statement, i));
}

/// After a statement is written to a file, the file holds it.
pub proof fn lemma_write_one_holds(
    files: Map<Seq<char>, Seq<char>>,
    path: Seq<char>,
    statement: Seq<char>,
)
    ensures
        holds(write_one(files, path, statement), path, statement),
{
    let text = statement.push('\n');
    assert(text =~= statement + seq!['\n']);
    match content_at(files, path) {
        Some(content) => {
            if !contains(content, statement) {
                lemma_contains_appended(content, statement, seq!['\n']);
            }
        },
        None => {
            lemma_contains_appended(Seq::empty(), statement, seq!['\n']);
            assert(Seq::<char>::empty() + text =~= text);
        },
    }
}

/// Writing never takes away: every file is still there afterwards, and
/// what it held stands unchanged at the start of what it holds now.
pub proof fn lemma_write_one_keeps(
    files: Map<Seq<char>, Seq<char>>,
    path: Seq<char>,
    statement: Seq<char>,
    other: Seq<char>,
)
    requires
        files.dom().contains(other),
    ensures
        write_one(files, path, statement).dom().contains(other),
        files[other].is_prefix_of(write_one(files, path, statement)[other]),
{
}

/// A statement that a file holds, the file still holds after any
/// statement is written to any file.
pub proof fn lemma_write_one_still_holds(
    files: Map<Seq<char>, Seq<char>>,
    path: Seq<char>,
    statement: Seq<char>,
    other: Seq<char>,
    held: Seq<char>,
)
    requires
        holds(files, other, held),
    ensures
        holds(write_one(files, path, statement), other, held),
{
    if other == path {
        match appended(content_at(files, path), statement) {
            Some(text) => {
                lemma_contains_after_append(files[path], held, text);
            },
            None => {},
        }
    }
}

/// Writing a statement to a file that holds it changes nothing.
pub proof fn lemma_write_one_again(
    files: Map<Seq<char>, Seq<char>>,
    path: Seq<char>,
    statement: Seq<char>,
)
    requires
        holds(files, path, statement),
    ensures
        write_one(files, path, statement) == files,
{
}

/// After the first `upto` entities are written, the file of each of them
/// holds its statement.
pub proof fn lemma_written_statements_are_held(
    files: Map<Seq<char>, Seq<char>>,
    catalog: Seq<Entity>,
    upto: int,
    i: int,
)
    requires
        0 <= i < upto <= catalog.len(),
        catalog[i].path(catalog) is Some,
    ensures
        holds(write_all(files, catalog, upto), catalog[i].path(catalog)->0, catalog[i].rendered()),
    decreases upto,
{
    let before = write_all(files, catalog, upto - 1);
    let last = catalog[upto - 1];
    if i == upto - 1 {
        lemma_write_one_holds(before, last.path(catalog)->0, last.rendered());
    } else {
        lemma_written_statements_are_held(files, catalog, upto - 1, i);
        if last.path(catalog) is Some {
            lemma_write_one_still_holds(
                before,
                last.path(catalog)->0,
                last.rendered(),
                catalog[i].path(catalog)->0,
                catalog[i].rendered(),
            );
        }
    }
}

/// Where the file of each of the first `upto` entities holds the entity's
/// statement, writing them changes nothing.
pub proof fn lemma_nothing_to_write(
    files: Map<Seq<char>, Seq<char>>,
    catalog: Seq<Entity>,
    upto: int,
)
    requires
        0 <= upto <= catalog.len(),
        forall|i: int|
            0 <= i < upto && (#[trigger] catalog[i]).path(catalog) is Some ==> holds(
                files,
                catalog[i].path(catalog)->0,
                catalog[i].rendered(),
            ),
    ensures
        write_all(files, catalog, upto) == files,
    decreases upto,
{
    if upto > 0 {
        lemma_nothing_to_write(files, catalog, upto - 1);
        let last = catalog[upto - 1];
        if last.path(catalog) is Some {
            lemma_write_one_again(files, last.path(catalog)->0, last.rendered());
        }
    }
}

/// The writer is idempotent: after a catalog is written, writing the same
/// catalog again appends nothing. Every file is, after each step of the
/// second run, as the first run left it.
pub proof fn lemma_write_twice(
    files: Map<Seq<char>, Seq<char>>,
    catalog: Seq<Entity>,
    upto: int,
    again: int,
)
    requires
        0 <= again <= upto <= catalog.len(),
    ensures
        write_all(write_all(files, catalog, upto), catalog, again) == write_all(
            files,
            catalog,
            upto,
        ),
{
    let written = write_all(files, catalog, upto);
    assert forall|i: int|
        0 <= i < again && (#[trigger] catalog[i]).path(catalog) is Some implies holds(
        written,
        catalog[i].path(catalog)->0,
        catalog[i].rendered(),
    ) by {
        lemma_written_statements_are_held(files, catalog, upto, i);
    }
    lemma_nothing_to_write(written, catalog, again);
}

/// The writer only appends: every file that was there before a catalog is
/// written is there afterwards, and what it held stands unchanged at the
/// start of what it holds now.
pub proof fn lemma_write_appends_only(
    files: Map<Seq<char>, Seq<char>>,
    catalog: Seq<Entity>,
    upto: int,
    path: Seq<char>,
)
    requires
        0 <= upto <= catalog.len(),
        files.dom().contains(path),
    ensures
        write_all(files, catalog, upto).dom().contains(path),
        files[path].is_prefix_of(write_all(files, catalog, upto)[path]),
    decreases upto,
{
    if upto > 0 {
        lemma_write_appends_only(files, catalog, upto - 1, path);
        let before = write_all(files, catalog, upto - 1);
        let last = catalog[upto - 1];
        if last.path(catalog) is Some {
            lemma_write_one_keeps(before, last.path(catalog)->0, last.rendered(), path);
        }
    }
}

} // verus!
