//! Paths relative to a directory.

use crate::text;
use vstd::prelude::*;

verus! {

/// The first part of a relative path.
#[derive(Debug)]
pub enum FirstPart {
    /// The directory itself, `.`.
    Current,
    /// The parent directory, `..`.
    Parent,
    /// The name of a file or directory.
    Normal(String),
}

pub enum FirstPartView {
    Current,
    Parent,
    Normal(Seq<char>),
}

impl View for FirstPart {
    type V = FirstPartView;

    open spec fn view(&self) -> FirstPartView {
        match self {
            FirstPart::Current => FirstPartView::Current,
            FirstPart::Parent => FirstPartView::Parent,
            FirstPart::Normal(s) => FirstPartView::Normal(s@),
        }
    }
}

/// The first part of a relative path: what stands before the next slash once
/// leading slashes are dropped.
pub open spec fn first_part(path: Seq<char>) -> Option<FirstPartView> {
    let rest = text::drop_leading(path, '/');
    let head = rest.take(text::lead_len(rest, '/') as int);
    if head.len() == 0 {
        None
    } else if head == "."@ {
        Some(FirstPartView::Current)
    } else if head == ".."@ {
        Some(FirstPartView::Parent)
    } else {
        Some(FirstPartView::Normal(head))
    }
}

/// Calls `RelativePath::components` of `relative_path` for the first component
/// of a path. Parts are separated by slashes, and empty ones are skipped; `.`
/// and `..` stand for the directory itself and its parent.
#[verifier::external_body]
pub(crate) fn first_component(path: &str) -> (r: Option<FirstPart>)
    ensures
        match r {
            Some(p) => first_part(path@) == Some(p@),
            None => first_part(path@) is None,
        },
{
    match relative_path::RelativePath::new(path).components().next() {
        Some(relative_path::Component::CurDir) => Some(FirstPart::Current),
        Some(relative_path::Component::ParentDir) => Some(FirstPart::Parent),
        Some(relative_path::Component::Normal(s)) => Some(FirstPart::Normal(s.to_owned())),
        None => None,
    }
}

/// The first part of a path is what stands between the slashes at its start and the next
/// slash, or its end: `.` and `..` are the directory itself and its parent, anything else is
/// a name, and a path of slashes alone has none.
pub proof fn paths_start_with_their_first_part(path: Seq<char>, a: int, b: int)
    requires
        0 <= a <= b <= path.len(),
        forall|i: int| 0 <= i < a ==> #[trigger] path[i] == '/',
        forall|i: int| a <= i < b ==> #[trigger] path[i] != '/',
        b < path.len() ==> a < b && path[b] == '/',
    ensures
        ({
            let head = path.subrange(a, b);
            &&& a == b ==> first_part(path) is None
            &&& a < b ==> first_part(path) == Some(
                if head == "."@ {
                    FirstPartView::Current
                } else if head == ".."@ {
                    FirstPartView::Parent
                } else {
                    FirstPartView::Normal(head)
                },
            )
        }),
{
    let rest = path.skip(a);
    text::what_is_dropped(path, '/', a);
    assert forall|i: int| 0 <= i < b - a implies rest[i] != '/' by {
        assert(rest[i] == path[a + i]);
    }
    if b < path.len() {
        assert(rest[b - a] == path[b]);
    }
    text::lemma_lead_len_unique(rest, '/', (b - a) as nat);
    assert(rest.take(b - a) =~= path.subrange(a, b));
}

} // verus!
