//! Which index a command talks to, and small matters of manifests.

use crate::failure::{plain, Failure};
use crate::git_url::{parse_gix_url, parsed_git_url, portable, GitUrl, GitUrlParts};
use crate::keyed::{entry, find, index_of_key, lemma_index_of_key};
use crate::project::{DependencyType, Index, Manifest, DEFAULT_INDEX_NAME};
use crate::text;
use vstd::prelude::*;

verus! {

/// Whether `r` is the index that the list has under that name.
pub open spec fn is_listed_index(
    indices: Seq<Index>,
    name: Seq<char>,
    r: Result<GitUrl, Failure>,
) -> bool {
    match entry(indices, name) {
        Some(i) => r is Ok && r->Ok_0@ == i.url@,
        None => r is Err && r->Err_0@ == plain("index "@ + name + " not found in manifest"@),
    }
}

/// Whether `r` is the index to talk to: a URL that was given; or the default of
/// the configuration, where nothing was given and there is no manifest; or what
/// the manifest has under the name. The parameter `url` is what the text that was
/// given is as a URL.
pub open spec fn is_index(
    manifest: Option<Manifest>,
    index: Option<&str>,
    url: Option<GitUrlParts>,
    configured: Result<GitUrl, Failure>,
    r: Result<GitUrl, Failure>,
) -> bool {
    match index {
        Some(name) => match url {
            Some(u) => r is Ok && r->Ok_0@ == u,
            None => manifest is Some && is_listed_index(manifest->0.indices@, name@, r),
        },
        None => match manifest {
            Some(m) => is_listed_index(m.indices@, DEFAULT_INDEX_NAME@, r),
            None => r == configured,
        },
    }
}

fn listed_index(indices: &Vec<Index>, name: &str) -> (r: Result<GitUrl, Failure>)
    ensures
        is_listed_index(indices@, name@, r),
{
    match find(indices, name) {
        Some(i) => Ok(i.url.copy()),
        None => Err(Failure::new(text::cat3("index ", name, " not found in manifest"))),
    }
}

/// What a URL consists of, where there is one.
pub open spec fn url_parts(url: Option<GitUrl>) -> Option<GitUrlParts> {
    match url {
        Some(u) => Some(u@),
        None => None,
    }
}

/// Picks the index to talk to, given what the text that was given is as a URL.
/// One that is no URL takes a manifest to look it up in.
pub fn pick_index(
    manifest: Option<Manifest>,
    index: Option<&str>,
    url: Option<GitUrl>,
    configured: Result<GitUrl, Failure>,
) -> (r: Result<GitUrl, Failure>)
    requires
        index is Some && url is None ==> manifest is Some,
    ensures
        is_index(manifest, index, url_parts(url), configured, r),
{
    match (index, manifest) {
        (Some(name), manifest) => match url {
            Some(u) => Ok(u),
            None => listed_index(&manifest.unwrap().indices, name),
        },
        (None, Some(m)) => listed_index(&m.indices, DEFAULT_INDEX_NAME),
        (None, None) => configured,
    }
}

/// What a portable text is as a URL.
pub open spec fn as_url(index: Option<&str>) -> Option<GitUrlParts> {
    match index {
        Some(name) => match parsed_git_url(name@) {
            Ok(u) => Some(u),
            Err(_) => None,
        },
        None => None,
    }
}

/// Whether `r` is the index to talk to, or that there is none.
pub open spec fn is_found_index(
    manifest: Result<Option<Manifest>, Failure>,
    index: Option<&str>,
    configured: Result<GitUrl, Failure>,
    r: Option<Result<GitUrl, Failure>>,
) -> bool {
    match manifest {
        Err(e) => r == Some(Err::<GitUrl, Failure>(e)),
        Ok(m) => {
            &&& (index is Some ==> portable(index->0@)) ==> match r {
                Some(found) => is_index(m, index, as_url(index), configured, found),
                None => index is Some && as_url(index) is None && m is None,
            }
            &&& r is None ==> index is Some && m is None
        },
    }
}

/// The index to talk to. There is none if what was given is no URL and there is
/// no manifest to look it up in. What a text that is not portable is as a URL is
/// left to the platform.
pub fn get_index(
    manifest: Result<Option<Manifest>, Failure>,
    index: Option<&str>,
    configured: Result<GitUrl, Failure>,
) -> (r: Option<Result<GitUrl, Failure>>)
    ensures
        is_found_index(manifest, index, configured, r),
        match manifest {
            Err(e) => r == Some(Err::<GitUrl, Failure>(e)),
            Ok(m) => {
                &&& (index is Some ==> portable(index->0@)) ==> match r {
                    Some(found) => is_index(m, index, as_url(index), configured, found),
                    None => index is Some && as_url(index) is None && m is None,
                }
                &&& r is None ==> index is Some && m is None
                &&& r is Some ==> exists|url: Option<GitUrlParts>|
                    is_index(m, index, url, configured, r->0)
            },
        },
{
    let manifest = match manifest {
        Err(e) => {
            return Some(Err(e));
        },
        Ok(manifest) => manifest,
    };
    let url = match index {
        Some(name) => match parse_gix_url(name) {
            Ok(u) => Some(u),
            Err(_) => None,
        },
        None => None,
    };
    if index.is_some() && url.is_none() && manifest.is_none() {
        return None;
    }
    let ghost parts = url_parts(url);
    let r = pick_index(manifest, index, url, configured);
    assert(is_index(manifest, index, parts, configured, r));
    Some(r)
}

/// The key of the manifest under which dependencies of a type stand.
pub open spec fn section(dep_type: DependencyType) -> Seq<char> {
    match dep_type {
        DependencyType::Standard => "dependencies"@,
        DependencyType::Dev => "dev_dependencies"@,
        DependencyType::Peer => "peer_dependencies"@,
    }
}

/// The key of the manifest under which dependencies of a type stand.
pub fn dep_type_to_key(dep_type: DependencyType) -> (r: &'static str)
    ensures
        r@ == section(dep_type),
{
    match dep_type {
        DependencyType::Standard => "dependencies",
        DependencyType::Dev => "dev_dependencies",
        DependencyType::Peer => "peer_dependencies",
    }
}

/// Dependencies of different types stand under different keys.
pub proof fn sections_differ(a: DependencyType, b: DependencyType)
    requires
        section(a) == section(b),
    ensures
        a == b,
{
    reveal_strlit("dependencies");
    reveal_strlit("dev_dependencies");
    reveal_strlit("peer_dependencies");
    assert("dependencies"@.len() == 12);
    assert("dev_dependencies"@.len() == 16);
    assert("peer_dependencies"@.len() == 17);
}

/// A URL that is given is the index, whatever the manifest and the configuration say. A name
/// that is given is looked up in the manifest, and with nothing given, the name of the
/// default index is: the first index with that name counts, and that there is none is an
/// error. The configuration counts only where nothing is given and there is no manifest.
pub proof fn index_is_the_one_asked_for(
    manifest: Option<Manifest>,
    index: Option<&str>,
    url: Option<GitUrlParts>,
    configured: Result<GitUrl, Failure>,
    r: Result<GitUrl, Failure>,
)
    requires
        is_index(manifest, index, url, configured, r),
        index is Some && url is None ==> manifest is Some,
    ensures
        index is Some ==> (url matches Some(u) ==> (r matches Ok(found) && found.text@ == u.0
            && found.shown@ == u.1)),
        index is None && manifest is None ==> r == configured,
        (index is Some && url is None) || (index is None && manifest is Some) ==> ({
            let name = match index {
                Some(name) => name@,
                None => "default"@,
            };
            let indices = manifest->0.indices@;
            match r {
                Ok(found) => exists|i: int|
                    {
                        &&& 0 <= i < indices.len()
                        &&& (#[trigger] indices[i]).name@ == name
                        &&& indices[i].url.text@ == found.text@
                        &&& indices[i].url.shown@ == found.shown@
                        &&& forall|j: int| 0 <= j < i ==> (#[trigger] indices[j]).name@ != name
                    },
                Err(e) => (forall|j: int|
                    0 <= j < indices.len() ==> (#[trigger] indices[j]).name@ != name) && e@
                    == seq!["index "@ + name + " not found in manifest"@],
            }
        }),
{
    if (index is Some && url is None) || (index is None && manifest is Some) {
        let name = match index {
            Some(name) => name@,
            None => "default"@,
        };
        let indices = manifest->0.indices@;
        lemma_index_of_key(indices, name);
        let n = index_of_key(indices, name) as int;
        if n < indices.len() {
            assert(indices[n].name@ == name);
        }
    }
}

/// What a text is as a URL is what it is read as, and nothing where it cannot be read.
pub proof fn texts_are_read_as_urls(index: &str)
    ensures
        match parsed_git_url(index@) {
            Ok(u) => as_url(Some(index)) == Some(u),
            Err(_) => as_url(Some(index)) is None,
        },
        as_url(None) is None,
{
}

/// The keys under which dependencies stand.
pub proof fn sections_by_name()
    ensures
        section(DependencyType::Standard) == "dependencies"@,
        section(DependencyType::Dev) == "dev_dependencies"@,
        section(DependencyType::Peer) == "peer_dependencies"@,
{
}

/// A manifest that cannot be read is an error, whatever is given. Else a portable text that is
/// a URL is the index; one that is none takes a manifest to look it up in; and with nothing
/// given, the configuration counts where there is no manifest.
pub proof fn given_index_is_found(
    manifest: Result<Option<Manifest>, Failure>,
    index: Option<&str>,
    configured: Result<GitUrl, Failure>,
    r: Option<Result<GitUrl, Failure>>,
)
    requires
        is_found_index(manifest, index, configured, r),
        index is Some ==> portable(index->0@),
    ensures
        manifest matches Err(e) ==> r == Some(Err::<GitUrl, Failure>(e)),
        manifest is Ok ==> (index matches Some(text) ==> match parsed_git_url(text@) {
            Ok(u) => r matches Some(Ok(found)) && found.text@ == u.0 && found.shown@ == u.1,
            Err(_) => r is None <==> manifest->Ok_0 is None,
        }),
        manifest is Ok && index is None && manifest->Ok_0 is None ==> r == Some(configured),
        manifest is Ok && index is None ==> r is Some,
{
}

} // verus!
