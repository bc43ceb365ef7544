//! Paths that are built up part by part.

use crate::text;
use vstd::prelude::*;

verus! {

/// A path: where it starts, and what is joined to that, one part after another.
#[derive(Debug)]
pub struct JoinedPath {
    pub root: String,
    pub parts: Vec<String>,
}

/// What a path consists of.
pub type PathParts = (Seq<char>, Seq<Seq<char>>);

impl View for JoinedPath {
    type V = PathParts;

    open spec fn view(&self) -> PathParts {
        (self.root@, text::texts(self.parts@))
    }
}

/// The path with that part joined to it.
pub open spec fn below(path: PathParts, part: Seq<char>) -> PathParts {
    (path.0, path.1.push(part))
}

impl JoinedPath {
    /// The path with nothing joined to its start.
    pub fn from(root: &str) -> (r: JoinedPath)
        ensures
            r@ == (root@, Seq::<Seq<char>>::empty()),
    {
        let r = JoinedPath { root: root.to_owned(), parts: Vec::new() };
        assert(r@.1 =~= Seq::<Seq<char>>::empty());
        r
    }

    /// The path with that part joined to it.
    pub fn join(self, part: &str) -> (r: JoinedPath)
        ensures
            r@ == below(self@, part@),
    {
        let mut r = self;
        let ghost prior = text::texts(r.parts@);
        r.parts.push(part.to_owned());
        assert(text::texts(r.parts@) =~= prior.push(part@));
        r
    }
}

/// A part that is joined to a path comes behind all its parts, and nothing else changes.
pub proof fn parts_are_joined_at_the_end(path: JoinedPath, part: Seq<char>, i: int)
    ensures
        below(path@, part).0 == path.root@,
        below(path@, part).1.len() == path.parts@.len() + 1,
        below(path@, part).1[path.parts@.len() as int] == part,
        0 <= i < path.parts@.len() ==> below(path@, part).1[i] == path.parts@[i]@,
{
}

} // verus!
