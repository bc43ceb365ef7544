//! The URLs of package indices and repositories.

use crate::failure::Failure;
use crate::text;
use vstd::prelude::*;

verus! {

/// A URL as git understands it.
#[derive(Debug)]
pub struct GitUrl {
    /// The URL with nothing left out.
    pub text: String,
    /// The URL as it is shown to the user: a password in it is redacted.
    pub shown: String,
}

/// What a URL consists of: its full text, and the text that is shown.
pub type GitUrlParts = (Seq<char>, Seq<char>);

impl View for GitUrl {
    type V = GitUrlParts;

    open spec fn view(&self) -> GitUrlParts {
        (self.text@, self.shown@)
    }
}

impl GitUrl {
    /// A copy of the URL.
    pub fn copy(&self) -> (r: GitUrl)
        ensures
            r@ == self@,
    {
        GitUrl { text: self.text.clone(), shown: self.shown.clone() }
    }
}

/// The index of the first `://` in `s`, or the length of `s`.
pub open spec fn scheme_len(s: Seq<char>) -> nat
    decreases s.len(),
{
    if s.len() == 0 || "://"@.is_prefix_of(s) {
        0
    } else {
        1 + scheme_len(s.drop_first())
    }
}

/// Whether `s` is read as a URL in the same way on every platform. Left out are
/// `file` URLs and texts that could start with a drive letter.
pub open spec fn portable(s: Seq<char>) -> bool {
    if scheme_len(s) < s.len() {
        !text::same_ignoring_case(s.take(scheme_len(s) as int), "file"@)
    } else {
        text::lead_len(s, ':') != 1 || s.len() == 1
    }
}

/// What `gix::Url` makes of a portable text: the parts of the URL, or the
/// error's message and that of its cause.
pub uninterp spec fn parsed_git_url(text: Seq<char>) -> Result<GitUrlParts, Seq<Seq<char>>>;

/// Reads a URL with `TryFrom<&str>` of `gix::Url`, and writes it out in full
/// and as it is shown. For a portable text the result depends on the text
/// alone; how other texts are read is left to the platform. The address of
/// GitHub is a URL.
#[verifier::external_body]
pub fn parse_gix_url(s: &str) -> (r: Result<GitUrl, Failure>)
    ensures
        portable(s@) ==> match r {
            Ok(u) => parsed_git_url(s@) == Ok::<GitUrlParts, Seq<Seq<char>>>(u@),
            Err(e) => parsed_git_url(s@) == Err::<GitUrlParts, Seq<Seq<char>>>(e@),
        },
        s@ == "https://github.com"@ ==> r is Ok,
{
    match gix::Url::try_from(s) {
        Ok(u) => Ok(GitUrl { text: u.to_bstring().to_string(), shown: u.to_string() }),
        Err(e) => {
            let cause = std::error::Error::source(&e).map(|c| c.to_string());
            Err(Failure { message: e.to_string(), causes: cause.into_iter().collect() })
        },
    }
}

/// Two URLs are the same if and only if they agree in full and in how they are shown.
pub proof fn urls_are_told_apart(a: GitUrl, b: GitUrl)
    ensures
        a@ == b@ <==> a.text@ == b.text@ && a.shown@ == b.shown@,
{
}

} // verus!
