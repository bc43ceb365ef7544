//! The files of a package, by their paths within it.

use crate::text;
use vstd::prelude::*;

verus! {

/// A part of a path.
#[derive(Debug)]
pub enum Part {
    /// A prefix as some platforms have it, such as a drive.
    Prefix(String),
    /// The root directory.
    Root,
    /// The directory itself, `.`.
    Current,
    /// The parent directory, `..`.
    Parent,
    /// The name of a file or directory.
    Normal(String),
}

pub enum PartView {
    Prefix(Seq<char>),
    Root,
    Current,
    Parent,
    Normal(Seq<char>),
}

impl View for Part {
    type V = PartView;

    open spec fn view(&self) -> PartView {
        match self {
            Part::Prefix(s) => PartView::Prefix(s@),
            Part::Root => PartView::Root,
            Part::Current => PartView::Current,
            Part::Parent => PartView::Parent,
            Part::Normal(s) => PartView::Normal(s@),
        }
    }
}

impl Part {
    /// Whether two parts are the same.
    pub fn same(&self, other: &Part) -> (r: bool)
        ensures
            r == (self@ == other@),
    {
        match (self, other) {
            (Part::Prefix(a), Part::Prefix(b)) => *a == *b,
            (Part::Root, Part::Root) => true,
            (Part::Current, Part::Current) => true,
            (Part::Parent, Part::Parent) => true,
            (Part::Normal(a), Part::Normal(b)) => *a == *b,
            _ => false,
        }
    }
}

/// A path within a package.
#[derive(Debug)]
pub struct FilePath {
    /// The path as it is shown.
    pub text: String,
    /// The parts of the path. Two paths with the same parts are the same path.
    pub parts: Vec<Part>,
}

/// The contents of a list of parts.
pub open spec fn part_views(parts: Seq<Part>) -> Seq<PartView> {
    parts.map_values(|p: Part| p@)
}

impl View for FilePath {
    type V = Seq<PartView>;

    open spec fn view(&self) -> Seq<PartView> {
        part_views(self.parts@)
    }
}

/// Which paths a list holds.
pub open spec fn path_views(paths: Seq<FilePath>) -> Seq<Seq<PartView>> {
    paths.map_values(|p: FilePath| p@)
}

/// The name at the end of a path, unless it ends in something else.
pub open spec fn file_name_of(path: Seq<PartView>) -> Option<Seq<char>> {
    if path.len() == 0 {
        None
    } else {
        match path.last() {
            PartView::Normal(s) => Some(s),
            _ => None,
        }
    }
}

/// Whether a part of the path has that name.
pub open spec fn passes_through(path: Seq<PartView>, name: Seq<char>) -> bool {
    path.contains(PartView::Normal(name))
}

/// The path that consists of one name.
pub open spec fn single(name: Seq<char>) -> Seq<PartView> {
    seq![PartView::Normal(name)]
}

/// Whether the path starts with those parts.
pub fn starts_with(path: &FilePath, prefix: &Vec<Part>) -> (r: bool)
    ensures
        r == part_views(prefix@).is_prefix_of(path@),
{
    if path.parts.len() < prefix.len() {
        return false;
    }
    let mut i: usize = 0;
    while i < prefix.len()
        invariant
            i <= prefix.len() <= path.parts.len(),
            forall|j: int| 0 <= j < i ==> #[trigger] prefix@[j]@ == path.parts@[j]@,
        decreases prefix.len() - i,
    {
        if !prefix[i].same(&path.parts[i]) {
            assert(part_views(prefix@)[i as int] != path@[i as int]);
            assert(path@.subrange(0, prefix@.len() as int)[i as int] == path@[i as int]);
            return false;
        }
        i = i + 1;
    }
    assert(part_views(prefix@) =~= path@.subrange(0, prefix@.len() as int)) by {
        assert forall|j: int| 0 <= j < prefix@.len() implies part_views(prefix@)[j] == path@[j] by {
            assert(prefix@[j]@ == path.parts@[j]@);
        }
    }
    true
}

/// Whether two paths are the same.
pub fn same_path(a: &FilePath, b: &FilePath) -> (r: bool)
    ensures
        r == (a@ == b@),
{
    if a.parts.len() != b.parts.len() {
        assert(a@.len() != b@.len());
        return false;
    }
    let r = starts_with(a, &b.parts);
    proof {
        assert(a@.subrange(0, b@.len() as int) =~= a@);
    }
    r
}

impl FilePath {
    /// The path that consists of one name.
    pub fn of_name(name: &str) -> (r: FilePath)
        ensures
            r.text@ == name@,
            r@ == single(name@),
    {
        let mut parts: Vec<Part> = Vec::new();
        parts.push(Part::Normal(name.to_owned()));
        let r = FilePath { text: name.to_owned(), parts };
        assert(r@ =~= single(name@));
        r
    }

    /// The name at the end of the path.
    pub fn file_name(&self) -> (r: Option<&String>)
        ensures
            match r {
                Some(s) => file_name_of(self@) == Some(s@),
                None => file_name_of(self@) is None,
            },
    {
        let n: usize = self.parts.len();
        if n == 0 {
            return None;
        }
        assert(self@.last() == self.parts@[n - 1]@);
        match &self.parts[n - 1] {
            Part::Normal(s) => Some(s),
            _ => None,
        }
    }

    /// Whether a part of the path has that name.
    pub fn has_part(&self, name: &str) -> (r: bool)
        ensures
            r == passes_through(self@, name@),
    {
        let mut i: usize = 0;
        while i < self.parts.len()
            invariant
                i <= self.parts.len(),
                forall|j: int| 0 <= j < i ==> #[trigger] self.parts@[j]@ != PartView::Normal(name@),
            decreases self.parts.len() - i,
        {
            if let Part::Normal(s) = &self.parts[i] {
                if text::same(s.as_str(), name) {
                    assert(self@[i as int] == PartView::Normal(name@));
                    return true;
                }
            }
            i = i + 1;
        }
        assert forall|j: int| 0 <= j < self@.len() implies self@[j] != PartView::Normal(name@) by {
            assert(self.parts@[j]@ != PartView::Normal(name@));
        }
        false
    }
}

/// Whether the list holds the path.
pub fn contains_path(paths: &Vec<FilePath>, path: &FilePath) -> (r: bool)
    ensures
        r == path_views(paths@).contains(path@),
{
    let mut i: usize = 0;
    while i < paths.len()
        invariant
            i <= paths.len(),
            forall|j: int| 0 <= j < i ==> #[trigger] paths@[j]@ != path@,
        decreases paths.len() - i,
    {
        if same_path(&paths[i], path) {
            assert(path_views(paths@)[i as int] == path@);
            return true;
        }
        i = i + 1;
    }
    assert forall|j: int| 0 <= j < path_views(paths@).len() implies path_views(paths@)[j]
        != path@ by {
        assert(paths@[j]@ != path@);
    }
    false
}

/// The list with the path at its end, unless it was there.
pub open spec fn with_path(paths: Seq<FilePath>, path: FilePath) -> Seq<FilePath> {
    if path_views(paths).contains(path@) {
        paths
    } else {
        paths.push(path)
    }
}

/// Adds a path to the list; `false` if it was there.
pub fn insert_path(paths: &mut Vec<FilePath>, path: FilePath) -> (added: bool)
    ensures
        added == !path_views(old(paths)@).contains(path@),
        final(paths)@ == with_path(old(paths)@, path),
{
    if contains_path(paths, &path) {
        false
    } else {
        paths.push(path);
        true
    }
}

/// Whether one of the paths starts with those parts.
pub fn any_starts_with(paths: &Vec<FilePath>, prefix: &Vec<Part>) -> (r: bool)
    ensures
        r == exists|i: int|
            0 <= i < paths@.len() && part_views(prefix@).is_prefix_of(#[trigger] paths@[i]@),
{
    let mut i: usize = 0;
    while i < paths.len()
        invariant
            i <= paths.len(),
            forall|j: int|
                0 <= j < i ==> !part_views(prefix@).is_prefix_of(#[trigger] paths@[j]@),
        decreases paths.len() - i,
    {
        if starts_with(&paths[i], prefix) {
            return true;
        }
        i = i + 1;
    }
    false
}

/// Adding a path keeps a list without duplicates free of them, and keeps what
/// was in it.
pub proof fn adding_a_path(paths: Seq<FilePath>, path: FilePath)
    ensures
        path_views(paths).no_duplicates() ==> path_views(with_path(paths, path)).no_duplicates(),
        path_views(with_path(paths, path)).contains(path@),
        forall|p: Seq<PartView>|
            path_views(paths).contains(p) ==> path_views(with_path(paths, path)).contains(p),
        forall|p: Seq<PartView>|
            path_views(with_path(paths, path)).contains(p) ==> p == path@ || path_views(
                paths,
            ).contains(p),
{
    let new = with_path(paths, path);
    if !path_views(paths).contains(path@) {
        assert(path_views(new) =~= path_views(paths).push(path@));
        assert(path_views(new)[paths.len() as int] == path@);
        assert forall|p: Seq<PartView>| path_views(paths).contains(p) implies path_views(
            new,
        ).contains(p) by {
            let i = choose|i: int| 0 <= i < paths.len() && path_views(paths)[i] == p;
            assert(path_views(new)[i] == p);
        }
        assert forall|p: Seq<PartView>| path_views(new).contains(p) implies p == path@
            || path_views(paths).contains(p) by {
            let i = choose|i: int| 0 <= i < new.len() && path_views(new)[i] == p;
            if i < paths.len() {
                assert(path_views(paths)[i] == p);
            }
        }
    }
}

/// Two parts of paths are the same if and only if they are of the same kind and, where they
/// have one, have the same name.
pub proof fn parts_are_told_apart(a: Part, b: Part)
    ensures
        a@ == b@ <==> match (a, b) {
            (Part::Prefix(s), Part::Prefix(t)) => s@ == t@,
            (Part::Root, Part::Root) => true,
            (Part::Current, Part::Current) => true,
            (Part::Parent, Part::Parent) => true,
            (Part::Normal(s), Part::Normal(t)) => s@ == t@,
            _ => false,
        },
{
}

/// Two paths are the same if and only if they have the same parts in the same order; how they
/// are shown does not matter.
pub proof fn paths_are_told_apart(a: FilePath, b: FilePath)
    ensures
        a@ == b@ <==> a.parts@.len() == b.parts@.len() && forall|i: int|
            0 <= i < a.parts@.len() ==> (#[trigger] a.parts@[i])@ == b.parts@[i]@,
{
    if a@ == b@ {
        assert(a@.len() == a.parts@.len() && b@.len() == b.parts@.len());
        assert forall|i: int| 0 <= i < a.parts@.len() implies (#[trigger] a.parts@[i])@
            == b.parts@[i]@ by {
            assert(a@[i] == b@[i]);
        }
    }
    if a.parts@.len() == b.parts@.len() && (forall|i: int|
        0 <= i < a.parts@.len() ==> (#[trigger] a.parts@[i])@ == b.parts@[i]@) {
        assert(a@ =~= b@) by {
            assert forall|i: int| 0 <= i < a@.len() implies a@[i] == b@[i] by {
                assert(a.parts@[i]@ == b.parts@[i]@);
            }
        }
    }
}

/// The name of a file is its last part, if that is a name; and a path passes through all the
/// names that are parts of it.
pub proof fn names_in_paths(p: FilePath, name: Seq<char>)
    ensures
        file_name_of(p@) == Some(name) <==> p.parts@.len() > 0 && (p.parts@[p.parts@.len() - 1]
            matches Part::Normal(s) && s@ == name),
        passes_through(p@, name) <==> exists|i: int|
            0 <= i < p.parts@.len() && (#[trigger] p.parts@[i] matches Part::Normal(s) && s@
                == name),
{
    let n = p.parts@.len();
    assert(p@.len() == n);
    if n > 0 {
        assert(p@.last() == p.parts@[n - 1]@);
    }
    if passes_through(p@, name) {
        let i = choose|i: int| 0 <= i < p@.len() && p@[i] == PartView::Normal(name);
        assert(p.parts@[i]@ == PartView::Normal(name));
        assert(p.parts@[i] is Normal);
    }
    if exists|i: int|
        0 <= i < n && (#[trigger] p.parts@[i] matches Part::Normal(s) && s@ == name) {
        let i = choose|i: int|
            0 <= i < n && (#[trigger] p.parts@[i] matches Part::Normal(s) && s@ == name);
        assert(p@[i] == PartView::Normal(name));
    }
}

} // verus!
