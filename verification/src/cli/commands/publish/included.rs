//! Which files may be published.

use super::errors::PublishError;
use super::notices::Notice;
use super::paths::{
    any_starts_with, file_name_of, insert_path, passes_through, path_views, single, FilePath,
    PartView,
};
use crate::project::MANIFEST_FILE_NAME;
use crate::search;
use crate::text;
use vstd::prelude::*;

verus! {

/// The files and directories that may not be published.
#[derive(Debug)]
pub struct Rules {
    /// Names of files that no path may end in.
    pub forbidden_files: Vec<String>,
    /// Names of files that no path may pass through.
    pub ignored_files: Vec<String>,
    /// Names of directories that no path may pass through.
    pub ignored_dirs: Vec<String>,
}

/// What came of looking through the included files.
#[derive(Debug)]
pub struct Included {
    /// The files, the manifest among them.
    pub paths: Vec<FilePath>,
    pub said: Vec<Notice>,
    /// Why the package cannot be published, if it cannot.
    pub verdict: Option<PublishError>,
}

/// What `str::to_lowercase` makes of a text.
pub uninterp spec fn lowercase(s: Seq<char>) -> Seq<char>;

/// Calls `str::to_lowercase`, whose result depends on the text alone.
#[verifier::external_body]
fn to_lowercase(s: &str) -> (r: String)
    ensures
        r@ == lowercase(s@),
{
    s.to_lowercase()
}

/// Whether a file's path, in lower case, is that of a README.
pub open spec fn is_readme_path(lowered: Seq<char>) -> bool {
    lowered == "readme"@ || lowered == "readme.md"@ || lowered == "readme.txt"@
}

/// Whether a file's path, in lower case, is that of a README.
pub fn is_readme(lowered: &str) -> (r: bool)
    ensures
        r == is_readme_path(lowered@),
{
    text::same(lowered, "readme") || text::same(lowered, "readme.md") || text::same(
        lowered,
        "readme.txt",
    )
}

/// Whether one of the files is a README.
pub open spec fn has_readme(paths: Seq<FilePath>) -> bool {
    exists|i: int| 0 <= i < paths.len() && is_readme_path(lowercase(#[trigger] paths[i].text@))
}

/// Whether one of the files lies under the directory.
pub open spec fn has_under(paths: Seq<FilePath>, dir: Seq<char>) -> bool {
    exists|i: int| 0 <= i < paths.len() && single(dir).is_prefix_of(#[trigger] paths[i]@)
}

/// Whether the path ends in one of the names.
pub open spec fn ends_in(path: Seq<PartView>, names: Seq<Seq<char>>) -> bool {
    match file_name_of(path) {
        Some(n) => names.contains(n),
        None => false,
    }
}

/// Whether one of the files passes through the name.
pub open spec fn any_passes_through(paths: Seq<FilePath>, name: Seq<char>) -> bool {
    exists|i: int| 0 <= i < paths.len() && passes_through(#[trigger] paths[i]@, name)
}

/// The index of the first file that ends in one of the names.
pub open spec fn first_forbidden(paths: Seq<FilePath>, names: Seq<Seq<char>>) -> int {
    search::first_index(paths.len() as int, |i: int| ends_in(paths[i]@, names))
}

/// The index of the first name that one of the files passes through.
pub open spec fn first_ignored(paths: Seq<FilePath>, names: Seq<Seq<char>>) -> int {
    search::first_index(names.len() as int, |i: int| any_passes_through(paths, names[i]))
}

/// The names that no path may pass through: files, then directories.
pub open spec fn ignored_names(rules: Rules) -> Seq<Seq<char>> {
    text::texts(rules.ignored_files@) + text::texts(rules.ignored_dirs@)
}

/// What is said of a file that ends in a forbidden name.
pub open spec fn is_forbidden_error(e: PublishError, path: FilePath) -> bool {
    let name = file_name_of(path@)->0;
    if name == "default.project.json"@ {
        e == PublishError::ProjectFileIncluded(path.text)
    } else {
        e matches PublishError::ForbiddenFile { name: n, path: p } && n@ == name && p == path.text
    }
}

/// What is said to the user before the verdict.
pub open spec fn included_notices(listed: Seq<FilePath>, paths: Seq<FilePath>) -> Seq<Notice> {
    let added = if path_views(listed).contains(single(MANIFEST_FILE_NAME@)) {
        Seq::empty()
    } else {
        seq![Notice::ManifestAdded]
    };
    if has_under(paths, ".git"@) {
        added
    } else {
        added + (if has_readme(paths) {
            Seq::empty()
        } else {
            seq![Notice::NoReadme]
        }) + (if has_under(paths, "docs"@) {
            Seq::empty()
        } else {
            seq![Notice::NoDocs]
        })
    }
}

/// Why the files cannot be published: the git directory is among them, or else
/// the first file with a forbidden name, or else the first name that may not
/// occur in a path.
pub open spec fn is_verdict(rules: Rules, paths: Seq<FilePath>, v: Option<PublishError>) -> bool {
    let forbidden = text::texts(rules.forbidden_files@);
    let i = first_forbidden(paths, forbidden);
    let j = first_ignored(paths, ignored_names(rules));
    if has_under(paths, ".git"@) {
        v == Some(PublishError::GitIncluded)
    } else if i < paths.len() {
        v is Some && is_forbidden_error(v->0, paths[i])
    } else if j < ignored_names(rules).len() {
        v matches Some(PublishError::ForbiddenEntry(n)) && n@ == ignored_names(rules)[j]
    } else {
        v is None
    }
}

fn any_readme(paths: &Vec<FilePath>) -> (r: bool)
    ensures
        r == has_readme(paths@),
{
    let mut i: usize = 0;
    while i < paths.len()
        invariant
            i <= paths.len(),
            forall|j: int|
                0 <= j < i ==> !is_readme_path(lowercase(#[trigger] paths@[j].text@)),
        decreases paths.len() - i,
    {
        if is_readme(to_lowercase(paths[i].text.as_str()).as_str()) {
            assert(is_readme_path(lowercase(paths@[i as int].text@)));
            return true;
        }
        i = i + 1;
    }
    false
}

fn any_under(paths: &Vec<FilePath>, dir: &str) -> (r: bool)
    ensures
        r == has_under(paths@, dir@),
{
    let prefix = FilePath::of_name(dir);
    any_starts_with(paths, &prefix.parts)
}

fn any_through(paths: &Vec<FilePath>, name: &str) -> (r: bool)
    ensures
        r == any_passes_through(paths@, name@),
{
    let mut i: usize = 0;
    while i < paths.len()
        invariant
            i <= paths.len(),
            forall|j: int| 0 <= j < i ==> !passes_through(#[trigger] paths@[j]@, name@),
        decreases paths.len() - i,
    {
        if paths[i].has_part(name) {
            return true;
        }
        i = i + 1;
    }
    false
}

/// The error for the first file with a forbidden name.
fn forbidden_file(paths: &Vec<FilePath>, names: &Vec<String>) -> (r: Option<PublishError>)
    ensures
        ({
            let i = first_forbidden(paths@, text::texts(names@));
            if i < paths@.len() {
                0 <= i && r is Some && is_forbidden_error(r->0, paths@[i])
            } else {
                r is None
            }
        }),
{
    let ghost holds = |i: int| ends_in(paths@[i]@, text::texts(names@));
    let mut i: usize = 0;
    while i < paths.len()
        invariant
            i <= paths.len(),
            holds == (|i: int| ends_in(paths@[i]@, text::texts(names@))),
            forall|j: int| 0 <= j < i ==> !(#[trigger] holds(j)),
        decreases paths.len() - i,
    {
        if let Some(name) = paths[i].file_name() {
            if search::contains_text(names, name.as_str()) {
                proof {
                    assert(holds(i as int));
                    search::lemma_first_index(paths@.len() as int, holds, i as int);
                }
                let e = if text::same(name.as_str(), "default.project.json") {
                    PublishError::ProjectFileIncluded(paths[i].text.clone())
                } else {
                    PublishError::ForbiddenFile { name: name.clone(), path: paths[i].text.clone() }
                };
                return Some(e);
            }
        }
        i = i + 1;
    }
    proof {
        search::lemma_first_index(paths@.len() as int, holds, i as int);
    }
    None
}

/// The error for the first name that may not occur in a path.
fn ignored_entry(paths: &Vec<FilePath>, rules: &Rules) -> (r: Option<PublishError>)
    ensures
        ({
            let names = ignored_names(*rules);
            let j = first_ignored(paths@, names);
            if j < names.len() {
                0 <= j && (r matches Some(PublishError::ForbiddenEntry(n)) && n@ == names[j])
            } else {
                r is None
            }
        }),
{
    let ghost names = ignored_names(*rules);
    let ghost holds = |i: int| any_passes_through(paths@, names[i]);
    let files: usize = rules.ignored_files.len();
    let mut i: usize = 0;
    while i < files
        invariant
            i <= files,
            files == rules.ignored_files@.len(),
            names == ignored_names(*rules),
            holds == (|i: int| any_passes_through(paths@, names[i])),
            forall|j: int| 0 <= j < i ==> !(#[trigger] holds(j)),
        decreases files - i,
    {
        assert(names[i as int] == rules.ignored_files@[i as int]@);
        if any_through(paths, rules.ignored_files[i].as_str()) {
            proof {
                assert(holds(i as int));
                search::lemma_first_index(names.len() as int, holds, i as int);
            }
            return Some(PublishError::ForbiddenEntry(rules.ignored_files[i].clone()));
        }
        i = i + 1;
    }
    let mut k: usize = 0;
    while k < rules.ignored_dirs.len()
        invariant
            k <= rules.ignored_dirs@.len(),
            files == rules.ignored_files@.len(),
            names == ignored_names(*rules),
            holds == (|i: int| any_passes_through(paths@, names[i])),
            forall|j: int| 0 <= j < files + k ==> !(#[trigger] holds(j)),
        decreases rules.ignored_dirs.len() - k,
    {
        assert(names[files + k] == rules.ignored_dirs@[k as int]@);
        if any_through(paths, rules.ignored_dirs[k].as_str()) {
            proof {
                assert(holds(files + k));
                search::lemma_first_index(names.len() as int, holds, files + k);
            }
            return Some(PublishError::ForbiddenEntry(rules.ignored_dirs[k].clone()));
        }
        assert(!holds(files + k));
        k = k + 1;
    }
    proof {
        search::lemma_first_index(names.len() as int, holds, names.len() as int);
    }
    None
}

/// Looks through the included files: adds the manifest, warns of what is
/// missing and finds what may not be published.
pub fn check_included(rules: &Rules, listed: Vec<FilePath>) -> (r: Included)
    ensures
        if path_views(listed@).contains(single(MANIFEST_FILE_NAME@)) {
            r.paths@ == listed@
        } else {
            &&& r.paths@.len() == listed@.len() + 1
            &&& r.paths@.drop_last() == listed@
            &&& r.paths@.last()@ == single(MANIFEST_FILE_NAME@)
            &&& r.paths@.last().text@ == MANIFEST_FILE_NAME@
        },
        r.said@ == included_notices(listed@, r.paths@),
        is_verdict(*rules, r.paths@, r.verdict),
{
    let mut paths = listed;
    let mut said: Vec<Notice> = Vec::new();
    let manifest = FilePath::of_name(MANIFEST_FILE_NAME);
    if insert_path(&mut paths, manifest) {
        said.push(Notice::ManifestAdded);
        assert(paths@.drop_last() =~= listed@);
    }
    let ghost added = said@;
    if any_under(&paths, ".git") {
        return Included { paths, said, verdict: Some(PublishError::GitIncluded) };
    }
    if !any_readme(&paths) {
        said.push(Notice::NoReadme);
    }
    if !any_under(&paths, "docs") {
        said.push(Notice::NoDocs);
    }
    assert(said@ =~= included_notices(listed@, paths@));
    if let Some(e) = forbidden_file(&paths, &rules.forbidden_files) {
        return Included { paths, said, verdict: Some(e) };
    }
    let verdict = ignored_entry(&paths, rules);
    Included { paths, said, verdict }
}

} // verus!
