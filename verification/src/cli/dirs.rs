//! Where the program keeps its files.

use crate::failure::{plain, Failure};
use crate::joined_path::{below, JoinedPath, PathParts};
use vstd::prelude::*;

verus! {

/// The directory in the home directory of the user.
pub const PESDE_DIR: &'static str = ".pesde";

/// The base directory: the one that was asked for, or one in the home
/// directory.
pub open spec fn base_of(pesde_home: Option<&str>, home: Option<&str>) -> Option<PathParts> {
    match pesde_home {
        Some(base) => Some((base@, Seq::empty())),
        None => match home {
            Some(home) => Some((home@, seq![PESDE_DIR@])),
            None => None,
        },
    }
}

/// Whether the result is that path, or the error that there is no home directory.
pub open spec fn is_path(r: Result<JoinedPath, Failure>, path: Option<PathParts>) -> bool {
    match path {
        Some(p) => r is Ok && r->Ok_0@ == p,
        None => r is Err && r->Err_0@ == plain("failed to get home directory"@),
    }
}

/// What lies under that name in the base directory, if there is one.
pub open spec fn in_base(base: Option<PathParts>, name: Seq<char>) -> Option<PathParts> {
    match base {
        Some(p) => Some(below(p, name)),
        None => None,
    }
}

/// The base directory, given the value of `PESDE_HOME` and the home directory.
pub fn base_dir(pesde_home: Option<&str>, home: Option<&str>) -> (r: Result<JoinedPath, Failure>)
    ensures
        is_path(r, base_of(pesde_home, home)),
{
    match pesde_home {
        Some(base) => Ok(JoinedPath::from(base)),
        None => match home {
            None => Err(Failure::of("failed to get home directory")),
            Some(home) => {
                let r = JoinedPath::from(home).join(PESDE_DIR);
                assert(r@.1 =~= seq![PESDE_DIR@]);
                Ok(r)
            },
        },
    }
}

fn under_base(pesde_home: Option<&str>, home: Option<&str>, name: &str) -> (r: Result<
    JoinedPath,
    Failure,
>)
    ensures
        is_path(r, in_base(base_of(pesde_home, home), name@)),
{
    match base_dir(pesde_home, home) {
        Ok(base) => Ok(base.join(name)),
        Err(e) => Err(e),
    }
}

/// The directory for programs.
pub fn bin_dir(pesde_home: Option<&str>, home: Option<&str>) -> (r: Result<JoinedPath, Failure>)
    ensures
        is_path(r, in_base(base_of(pesde_home, home), "bin"@)),
{
    under_base(pesde_home, home, "bin")
}

/// The directory for engines.
pub fn engines_dir(pesde_home: Option<&str>, home: Option<&str>) -> (r: Result<JoinedPath, Failure>)
    ensures
        is_path(r, in_base(base_of(pesde_home, home), "engines"@)),
{
    under_base(pesde_home, home, "engines")
}

/// The file with the configuration.
pub fn config_path(pesde_home: Option<&str>, home: Option<&str>) -> (r: Result<JoinedPath, Failure>)
    ensures
        is_path(r, in_base(base_of(pesde_home, home), "config.toml"@)),
{
    under_base(pesde_home, home, "config.toml")
}

/// The directory for data.
pub fn data_dir(pesde_home: Option<&str>, home: Option<&str>) -> (r: Result<JoinedPath, Failure>)
    ensures
        is_path(r, in_base(base_of(pesde_home, home), "data"@)),
{
    under_base(pesde_home, home, "data")
}

/// Files of one kind are not kept where those of another are.
pub proof fn places_differ(base: PathParts)
    ensures
        below(base, "bin"@) != below(base, "engines"@),
        below(base, "bin"@) != below(base, "config.toml"@),
        below(base, "bin"@) != below(base, "data"@),
        below(base, "engines"@) != below(base, "config.toml"@),
        below(base, "engines"@) != below(base, "data"@),
        below(base, "config.toml"@) != below(base, "data"@),
{
    reveal_strlit("bin");
    reveal_strlit("engines");
    reveal_strlit("config.toml");
    reveal_strlit("data");
    assert(below(base, "bin"@).1.last().len() == 3);
    assert(below(base, "engines"@).1.last().len() == 7);
    assert(below(base, "config.toml"@).1.last().len() == 11);
    assert(below(base, "data"@).1.last().len() == 4);
}

/// With a base directory of the user's own, the home directory does not matter.
pub proof fn home_is_a_fallback(base: &str, home: Option<&str>, other: Option<&str>)
    ensures
        base_of(Some(base), home) == base_of(Some(base), other),
        base_of(Some(base), home) == Some((base@, Seq::<Seq<char>>::empty())),
{
}

/// The base directory is the one that the user asks for, as it is; else the one for the
/// program in the home directory; and there is none without either. What lies in it, lies
/// directly below it.
pub proof fn files_lie_in_the_base_directory(
    pesde_home: Option<&str>,
    home: Option<&str>,
    name: Seq<char>,
)
    ensures
        pesde_home matches Some(base) ==> in_base(base_of(pesde_home, home), name) == Some(
            (base@, seq![name]),
        ),
        pesde_home is None ==> (home matches Some(h) ==> base_of(pesde_home, home) == Some(
            (h@, seq![".pesde"@]),
        ) && in_base(base_of(pesde_home, home), name) == Some((h@, seq![".pesde"@, name]))),
        base_of(pesde_home, home) is None <==> pesde_home is None && home is None,
{
    assert(Seq::<Seq<char>>::empty().push(name) =~= seq![name]);
    assert(seq![".pesde"@].push(name) =~= seq![".pesde"@, name]);
}

} // verus!
