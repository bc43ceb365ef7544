//! Engines that are released on GitHub.

pub mod errors;
pub mod laws;

use crate::failure::Failure;
use crate::git_url::{parse_gix_url, parsed_git_url, portable, scheme_len, GitUrl, GitUrlParts};
use crate::joined_path::JoinedPath;
use crate::keyed::{entry, find};
use crate::project::{AuthConfig, Token};
use crate::query::{encode_segment, path_segment};
use crate::search;
use crate::text;
use crate::version::{
    no_build_metadata, order_versions, parse_version, parsed_version, plainly_lower, precedence,
    valid_version, version_text, without_build, Precedence, Version, VersionParts,
};
use errors::{DownloadError, ResolveError};
use vstd::prelude::*;

verus! {

/// Whether the URL is that of GitHub.
pub open spec fn is_github_url(url: GitUrl) -> bool {
    parsed_git_url("https://github.com"@) == Ok::<GitUrlParts, Seq<Seq<char>>>(url@)
}

proof fn lemma_not_prefix(prefix: Seq<char>, s: Seq<char>)
    requires
        prefix.len() > 0,
        s.len() > 0,
        prefix[0] != s[0],
    ensures
        !prefix.is_prefix_of(s),
{
    if prefix.is_prefix_of(s) {
        assert(prefix =~= s.subrange(0, prefix.len() as int));
        assert(prefix[0] == s.subrange(0, prefix.len() as int)[0]);
    }
}

proof fn lemma_github_is_portable()
    ensures
        portable("https://github.com"@),
{
    reveal_strlit("https://github.com");
    reveal_strlit("://");
    reveal_strlit("file");
    let s = "https://github.com"@;
    reveal_with_fuel(scheme_len, 7);
    let s1 = s.drop_first();
    let s2 = s1.drop_first();
    let s3 = s2.drop_first();
    let s4 = s3.drop_first();
    let s5 = s4.drop_first();
    assert("://"@ =~= s5.subrange(0, 3));
    assert(scheme_len(s5) == 0);
    lemma_not_prefix("://"@, s4);
    lemma_not_prefix("://"@, s3);
    lemma_not_prefix("://"@, s2);
    lemma_not_prefix("://"@, s1);
    lemma_not_prefix("://"@, s);
    assert(scheme_len(s) == 5);
    assert(s.take(5).len() != "file"@.len());
}

/// The URL of GitHub.
pub fn github_url() -> (r: GitUrl)
    ensures
        is_github_url(r),
{
    proof {
        lemma_github_is_portable();
    }
    parse_gix_url("https://github.com").unwrap()
}

/// The GitHub engine source.
#[derive(Debug, Eq, PartialEq, Hash, Clone)]
pub struct GitHubEngineSource {
    /// The owner of the repository to download from.
    pub owner: String,
    /// The repository of which to download releases from.
    pub repo: String,
    /// The template for the asset name. `{VERSION}` will be replaced with the version.
    pub asset_template: String,
}

/// A file of a release.
#[derive(Debug)]
pub struct Asset {
    pub name: String,
    pub url: String,
}

/// A release of an engine.
#[derive(Debug)]
pub struct Release {
    pub tag_name: String,
    pub assets: Vec<Asset>,
}

/// A request that is sent to GitHub.
#[derive(Debug)]
pub struct Request {
    pub url: String,
    /// What is asked for, if that is said.
    pub accept: Option<&'static str>,
    pub token: Option<String>,
}

/// The token of the user for GitHub.
pub open spec fn github_token(tokens: Seq<Token>) -> Option<String> {
    match entry(tokens, parsed_git_url("https://github.com"@)->Ok_0.0) {
        Some(t) => Some(t.token),
        None => None,
    }
}

fn find_github_token(auth: &AuthConfig) -> (r: Option<String>)
    ensures
        r == github_token(auth.tokens@),
{
    let site = github_url();
    match find(&auth.tokens, site.text.as_str()) {
        Some(t) => Some(t.token.clone()),
        None => None,
    }
}

// Finding a release.

/// Where the releases of the repository are listed.
pub open spec fn releases_url(owner: Seq<char>, repo: Seq<char>) -> Seq<char> {
    "https://api.github.com/repos/"@ + path_segment(owner) + "/"@ + path_segment(repo)
        + "/releases"@
}

/// The version in the tag of a release, which may have a `v` before it.
pub open spec fn tag_version(tag: Seq<char>) -> Option<VersionParts> {
    match parsed_version(text::drop_leading(tag, 'v')) {
        Ok(v) => Some(v),
        Err(_) => None,
    }
}

/// A release that meets the requirement, by its index, and its version.
#[derive(Debug)]
pub struct Candidate {
    pub version: Version,
    pub release: usize,
}

/// Whether release `i` has that version and meets the requirement.
pub open spec fn met(
    versions: Seq<Option<VersionParts>>,
    accepts: Seq<bool>,
    i: int,
    v: VersionParts,
) -> bool {
    versions[i] == Some(v) && accepts[i]
}

/// The last of the first `n` releases that has that version and meets the
/// requirement.
pub open spec fn last_met(
    versions: Seq<Option<VersionParts>>,
    accepts: Seq<bool>,
    n: int,
    v: VersionParts,
) -> Option<int>
    decreases n,
{
    if n <= 0 {
        None
    } else if met(versions, accepts, n - 1, v) {
        Some(n - 1)
    } else {
        last_met(versions, accepts, n - 1, v)
    }
}

/// Whether a version is lower than another, which its numbers do not deny.
pub open spec fn lies_below(a: VersionParts, b: VersionParts) -> bool {
    precedence(a, b) == Precedence::Lower && !plainly_lower(b, a)
}

/// Each version is lower than the next ones.
pub open spec fn versions_ascend(list: Seq<Candidate>) -> bool {
    forall|i: int, j: int|
        0 <= i < j < list.len() ==> lies_below(
            (#[trigger] list[i]).version@,
            (#[trigger] list[j]).version@,
        )
}

/// Whether the list has the version, with that release.
pub open spec fn lists(list: Seq<Candidate>, v: VersionParts, release: int) -> bool {
    exists|k: int|
        0 <= k < list.len() && (#[trigger] list[k]).version@ == v && list[k].release == release
}

/// Whether the list has exactly the versions that meet the requirement among the
/// first `n` releases, in ascending order, each with the last release that has it.
pub open spec fn is_resolved(
    versions: Seq<Option<VersionParts>>,
    accepts: Seq<bool>,
    n: int,
    list: Seq<Candidate>,
) -> bool {
    &&& versions_ascend(list)
    &&& forall|k: int| 0 <= k < list.len() ==> valid_version((#[trigger] list[k]).version@)
    &&& forall|k: int|
        0 <= k < list.len() ==> last_met(
            versions,
            accepts,
            n,
            (#[trigger] list[k]).version@,
        ) == Some(list[k].release as int)
    &&& forall|v: VersionParts|
        #![trigger last_met(versions, accepts, n, v)]
        last_met(versions, accepts, n, v) is Some ==> lists(
            list,
            v,
            last_met(versions, accepts, n, v)->0,
        )
}

/// The versions in the tags of releases.
pub open spec fn tag_versions(releases: Seq<Release>) -> Seq<Option<VersionParts>> {
    releases.map_values(|r: Release| tag_version(r.tag_name@))
}

/// What a version consists of, where there is one.
pub open spec fn version_view(v: Option<Version>) -> Option<VersionParts> {
    match v {
        Some(v) => Some(v@),
        None => None,
    }
}

/// What versions consist of, where there are any.
pub open spec fn version_views(versions: Seq<Option<Version>>) -> Seq<Option<VersionParts>> {
    versions.map_values(|v: Option<Version>| version_view(v))
}

fn place(list: &mut Vec<Candidate>, version: Version, release: usize)
    requires
        versions_ascend(old(list)@),
        forall|k: int|
            0 <= k < old(list)@.len() ==> valid_version((#[trigger] old(list)@[k]).version@),
        valid_version(version@),
    ensures
        versions_ascend(final(list)@),
        forall|k: int|
            0 <= k < final(list)@.len() ==> valid_version((#[trigger] final(list)@[k]).version@),
        lists(final(list)@, version@, release as int),
        forall|v: VersionParts, r: int|
            v != version@ ==> (#[trigger] lists(final(list)@, v, r) <==> lists(old(list)@, v, r)),
        forall|k: int|
            0 <= k < final(list)@.len() && (#[trigger] final(list)@[k]).version@ == version@
                ==> final(list)@[k].release == release,
{
    let ghost prior = list@;
    let mut i: usize = 0;
    while i < list.len()
        invariant
            i <= list.len(),
            list@ == prior,
            versions_ascend(prior),
            forall|k: int| 0 <= k < prior.len() ==> valid_version((#[trigger] prior[k]).version@),
            valid_version(version@),
            forall|k: int|
                0 <= k < i ==> lies_below((#[trigger] prior[k]).version@, version@)
                    && prior[k].version@ != version@,
            prior == old(list)@,
        decreases list.len() - i,
    {
        match order_versions(&version, &list[i].version) {
            Precedence::Higher => {},
            Precedence::Same => {
                let ghost new = Candidate { version: list[i as int].version, release };
                list[i].release = release;
                proof {
                    assert(list@ =~= prior.update(i as int, new));
                    lemma_replaced(prior, i as int, new);
                }
                return ;
            },
            Precedence::Lower => {
                let ghost new = Candidate { version, release };
                list.insert(i, Candidate { version, release });
                proof {
                    assert(list@ =~= prior.insert(i as int, new));
                    assert forall|j: int| i <= j < prior.len() implies lies_below(
                        version@,
                        (#[trigger] prior[j]).version@,
                    ) && prior[j].version@ != version@ by {
                        if j > i {
                            assert(lies_below(prior[i as int].version@, prior[j].version@));
                        }
                    }
                    lemma_inserted(prior, i as int, new);
                }
                return ;
            },
        }
        i = i + 1;
    }
    let ghost new = Candidate { version, release };
    list.push(Candidate { version, release });
    proof {
        assert(list@ =~= prior.insert(i as int, new));
        lemma_inserted(prior, i as int, new);
    }
}

/// Finds the releases that have a version which meets the requirement, given the
/// versions in their tags and which of them meet it.
pub fn collect_candidates(versions: &Vec<Option<Version>>, accepts: &Vec<bool>) -> (list: Vec<
    Candidate,
>)
    requires
        accepts.len() == versions.len(),
        forall|i: int|
            0 <= i < versions@.len() && (#[trigger] versions@[i]) is Some ==> valid_version(
                versions@[i]->0@,
            ),
    ensures
        is_resolved(version_views(versions@), accepts@, versions@.len() as int, list@),
{
    let mut list: Vec<Candidate> = Vec::new();
    let ghost views = version_views(versions@);
    let mut i: usize = 0;
    while i < versions.len()
        invariant
            i <= versions.len(),
            accepts.len() == versions.len(),
            views == version_views(versions@),
            forall|i: int|
                0 <= i < versions@.len() && (#[trigger] versions@[i]) is Some ==> valid_version(
                    versions@[i]->0@,
                ),
            is_resolved(views, accepts@, i as int, list@),
        decreases versions.len() - i,
    {
        let ghost prior = list@;
        if accepts[i] {
            if let Some(version) = &versions[i] {
                let v = version.copy();
                let ghost parts = v@;
                place(&mut list, v, i);
                proof {
                    lemma_placed(views, accepts@, i as int, prior, list@, parts);
                }
            } else {
                proof {
                    lemma_skipped(views, accepts@, i as int, prior);
                }
            }
        } else {
            proof {
                lemma_skipped(views, accepts@, i as int, prior);
            }
        }
        i = i + 1;
    }
    list
}

proof fn lemma_replaced(prior: Seq<Candidate>, i: int, new: Candidate)
    requires
        versions_ascend(prior),
        forall|k: int| 0 <= k < prior.len() ==> valid_version((#[trigger] prior[k]).version@),
        0 <= i < prior.len(),
        prior[i].version@ == new.version@,
        forall|k: int|
            0 <= k < i ==> lies_below((#[trigger] prior[k]).version@, new.version@),
        forall|k: int|
            0 <= k < prior.len() && k != i ==> (#[trigger] prior[k]).version@ != new.version@,
    ensures
        versions_ascend(prior.update(i, new)),
        forall|k: int|
            0 <= k < prior.len() ==> valid_version((#[trigger] prior.update(i, new)[k]).version@),
        lists(prior.update(i, new), new.version@, new.release as int),
        forall|v: VersionParts, r: int|
            v != new.version@ ==> (#[trigger] lists(prior.update(i, new), v, r) <==> lists(
                prior,
                v,
                r,
            )),
        forall|k: int|
            0 <= k < prior.len() && (#[trigger] prior.update(i, new)[k]).version@ == new.version@
                ==> prior.update(i, new)[k].release == new.release,
{
    let list = prior.update(i, new);
    assert forall|a: int, b: int| 0 <= a < b < list.len() implies lies_below(
        (#[trigger] list[a]).version@,
        (#[trigger] list[b]).version@,
    ) by {
        assert(list[a].version@ == prior[a].version@);
        assert(list[b].version@ == prior[b].version@);
    }
    assert forall|k: int| 0 <= k < prior.len() implies valid_version(
        (#[trigger] list[k]).version@,
    ) by {
        assert(list[k].version@ == prior[k].version@);
    }
    assert(list[i].version@ == new.version@);
    assert forall|v: VersionParts, r: int| v != new.version@ implies (#[trigger] lists(list, v, r)
        <==> lists(prior, v, r)) by {
        if lists(list, v, r) {
            let k = choose|k: int|
                0 <= k < list.len() && (#[trigger] list[k]).version@ == v && list[k].release == r;
            assert(prior[k].version@ == v);
        }
        if lists(prior, v, r) {
            let k = choose|k: int|
                0 <= k < prior.len() && (#[trigger] prior[k]).version@ == v && prior[k].release
                    == r;
            assert(list[k].version@ == v);
        }
    }
}

proof fn lemma_inserted(prior: Seq<Candidate>, i: int, new: Candidate)
    requires
        versions_ascend(prior),
        forall|k: int| 0 <= k < prior.len() ==> valid_version((#[trigger] prior[k]).version@),
        valid_version(new.version@),
        0 <= i <= prior.len(),
        forall|k: int|
            0 <= k < i ==> lies_below((#[trigger] prior[k]).version@, new.version@),
        forall|k: int|
            i <= k < prior.len() ==> lies_below(new.version@, (#[trigger] prior[k]).version@),
        forall|k: int|
            0 <= k < prior.len() ==> (#[trigger] prior[k]).version@ != new.version@,
    ensures
        versions_ascend(prior.insert(i, new)),
        forall|k: int|
            0 <= k < prior.len() + 1 ==> valid_version(
                (#[trigger] prior.insert(i, new)[k]).version@,
            ),
        lists(prior.insert(i, new), new.version@, new.release as int),
        forall|v: VersionParts, r: int|
            v != new.version@ ==> (#[trigger] lists(prior.insert(i, new), v, r) <==> lists(
                prior,
                v,
                r,
            )),
        forall|k: int|
            0 <= k < prior.len() + 1 && (#[trigger] prior.insert(i, new)[k]).version@
                == new.version@ ==> prior.insert(i, new)[k].release == new.release,
{
    let list = prior.insert(i, new);
    assert forall|k: int| 0 <= k < list.len() implies (#[trigger] list[k]) == (if k < i {
        prior[k]
    } else if k == i {
        new
    } else {
        prior[k - 1]
    }) by {}
    assert forall|a: int, b: int| 0 <= a < b < list.len() implies lies_below(
        (#[trigger] list[a]).version@,
        (#[trigger] list[b]).version@,
    ) by {}
    assert(list[i] == new);
    assert forall|v: VersionParts, r: int| v != new.version@ implies (#[trigger] lists(list, v, r)
        <==> lists(prior, v, r)) by {
        if lists(list, v, r) {
            let k = choose|k: int|
                0 <= k < list.len() && (#[trigger] list[k]).version@ == v && list[k].release == r;
            let old_k = if k < i {
                k
            } else {
                k - 1
            };
            assert(prior[old_k].version@ == v);
        }
        if lists(prior, v, r) {
            let k = choose|k: int|
                0 <= k < prior.len() && (#[trigger] prior[k]).version@ == v && prior[k].release
                    == r;
            let new_k = if k < i {
                k
            } else {
                k + 1
            };
            assert(list[new_k].version@ == v);
        }
    }
}

proof fn lemma_skipped(
    versions: Seq<Option<VersionParts>>,
    accepts: Seq<bool>,
    n: int,
    list: Seq<Candidate>,
)
    requires
        0 <= n < versions.len(),
        is_resolved(versions, accepts, n, list),
        versions[n] is None || !accepts[n],
    ensures
        is_resolved(versions, accepts, n + 1, list),
{
    assert forall|v: VersionParts|
        #![trigger last_met(versions, accepts, n + 1, v)]
        last_met(versions, accepts, n + 1, v) == last_met(versions, accepts, n, v) by {}
}

proof fn lemma_placed(
    versions: Seq<Option<VersionParts>>,
    accepts: Seq<bool>,
    n: int,
    prior: Seq<Candidate>,
    list: Seq<Candidate>,
    new: VersionParts,
)
    requires
        0 <= n < versions.len(),
        is_resolved(versions, accepts, n, prior),
        versions[n] == Some(new),
        accepts[n],
        versions_ascend(list),
        forall|k: int| 0 <= k < list.len() ==> valid_version((#[trigger] list[k]).version@),
        lists(list, new, n),
        forall|v: VersionParts, r: int|
            v != new ==> (#[trigger] lists(list, v, r) <==> lists(prior, v, r)),
        forall|k: int|
            0 <= k < list.len() && (#[trigger] list[k]).version@ == new ==> list[k].release == n,
    ensures
        is_resolved(versions, accepts, n + 1, list),
{
    assert forall|v: VersionParts|
        #![trigger last_met(versions, accepts, n + 1, v)]
        last_met(versions, accepts, n + 1, v) == (if v == new {
            Some(n)
        } else {
            last_met(versions, accepts, n, v)
        }) by {}
    assert forall|k: int| 0 <= k < list.len() implies last_met(
        versions,
        accepts,
        n + 1,
        (#[trigger] list[k]).version@,
    ) == Some(list[k].release as int) by {
        let v = list[k].version@;
        if v != new {
            assert(lists(list, v, list[k].release as int));
            assert(lists(prior, v, list[k].release as int));
            let j = choose|j: int|
                0 <= j < prior.len() && (#[trigger] prior[j]).version@ == v && prior[j].release
                    == list[k].release;
            assert(last_met(versions, accepts, n, prior[j].version@) == Some(
                prior[j].release as int,
            ));
        }
    }
    assert forall|v: VersionParts|
        #![trigger last_met(versions, accepts, n + 1, v)]
        last_met(versions, accepts, n + 1, v) is Some implies lists(
        list,
        v,
        last_met(versions, accepts, n + 1, v)->0,
    ) by {
        if v != new {
            assert(last_met(versions, accepts, n, v) is Some);
            assert(lists(prior, v, last_met(versions, accepts, n, v)->0));
        }
    }
}

// Downloading a release.

/// The name of the asset for a version.
pub open spec fn asset_name(template: Seq<char>, version: Seq<char>) -> Seq<char> {
    text::replaced(template, "{VERSION}"@, version)
}

/// Whether an asset has the name for that version, with or without its build
/// metadata; upper and lower case are the same.
pub open spec fn is_wanted(template: Seq<char>, v: VersionParts, name: Seq<char>) -> bool {
    ||| text::same_ignoring_case(name, asset_name(template, version_text(v)))
    ||| text::same_ignoring_case(name, asset_name(template, version_text(without_build(v))))
}

/// The first asset that is wanted, or the number of assets.
pub open spec fn first_wanted(template: Seq<char>, v: VersionParts, assets: Seq<Asset>) -> int {
    search::first_index(assets.len() as int, |i: int| is_wanted(template, v, assets[i].name@))
}

/// Whether the request is the one for the list of releases.
pub open spec fn asks_for_releases(
    source: GitHubEngineSource,
    tokens: Seq<Token>,
    request: Request,
) -> bool {
    &&& request.url@ == releases_url(source.owner@, source.repo@)
    &&& request.accept is None
    &&& request.token == github_token(tokens)
}

/// Whether the result is the asset to download for a version and the request for it, or that
/// there is none.
pub open spec fn is_download(
    source: GitHubEngineSource,
    assets: Seq<Asset>,
    v: VersionParts,
    tokens: Seq<Token>,
    r: Result<(usize, Request), DownloadError>,
) -> bool {
    let k = first_wanted(source.asset_template@, v, assets);
    match r {
        Err(e) => k == assets.len() && e == DownloadError::AssetNotFound,
        Ok((i, request)) => {
            &&& i == k
            &&& k < assets.len()
            &&& request.url == assets[k].url
            &&& request.accept is Some
            &&& request.accept->0@ == "application/octet-stream"@
            &&& request.token == github_token(tokens)
        },
    }
}

/// What comes of a download, given how the request went and what the name of the asset is
/// read as.
pub open spec fn download_outcome<I>(
    answered: Result<(), Failure>,
    info: Result<I, Failure>,
) -> Result<I, DownloadError> {
    match answered {
        Err(e) => Err(DownloadError::Request(e)),
        Ok(_) => match info {
            Err(e) => Err(DownloadError::ParseAssetName(e)),
            Ok(info) => Ok(info),
        },
    }
}

impl GitHubEngineSource {
    /// The directory for engines of this source.
    pub fn directory(&self) -> (r: JoinedPath)
        ensures
            r@ == ("github"@, seq![self.owner@, self.repo@]),
    {
        let r = JoinedPath::from("github").join(self.owner.as_str()).join(self.repo.as_str());
        assert(r@.1 =~= seq![self.owner@, self.repo@]);
        r
    }

    /// The name that the program is expected to have.
    pub fn expected_file_name(&self) -> (r: &str)
        ensures
            r@ == self.repo@,
    {
        self.repo.as_str()
    }

    /// The request for the list of releases.
    pub fn releases_request(&self, auth: &AuthConfig) -> (r: Request)
        ensures
            asks_for_releases(*self, auth.tokens@, r),
            r.url@ == releases_url(self.owner@, self.repo@),
            r.accept is None,
            r.token == github_token(auth.tokens@),
    {
        let owner = encode_segment(self.owner.as_str());
        let repo = encode_segment(self.repo.as_str());
        Request {
            url: text::cat5(
                "https://api.github.com/repos/",
                owner.as_str(),
                "/",
                repo.as_str(),
                "/releases",
            ),
            accept: None,
            token: find_github_token(auth),
        }
    }

    /// The versions in the tags of the releases that GitHub listed.
    pub fn read_releases(&self, listed: &Vec<Release>) -> (r: Vec<Option<Version>>)
        ensures
            version_views(r@) == tag_versions(listed@),
            forall|i: int|
                0 <= i < r@.len() && (#[trigger] r@[i]) is Some ==> valid_version(r@[i]->0@),
    {
        let mut r: Vec<Option<Version>> = Vec::new();
        let mut i: usize = 0;
        while i < listed.len()
            invariant
                i <= listed.len(),
                version_views(r@) == tag_versions(listed@).take(i as int),
                forall|i: int|
                    0 <= i < r@.len() && (#[trigger] r@[i]) is Some ==> valid_version(r@[i]->0@),
            decreases listed.len() - i,
        {
            let tag = text::trim_start_char(listed[i].tag_name.as_str(), 'v');
            let version = match parse_version(tag) {
                Ok(v) => Some(v),
                Err(_) => None,
            };
            let ghost prior = version_views(r@);
            let ghost parts = version_view(version);
            r.push(version);
            assert(version_views(r@) =~= prior.push(parts));
            assert(tag_versions(listed@)[i as int] == parts);
            assert(tag_versions(listed@).take(i + 1) =~= tag_versions(listed@).take(i as int).push(
                parts,
            ));
            i = i + 1;
        }
        assert(tag_versions(listed@).take(i as int) =~= tag_versions(listed@));
        r
    }

    /// The releases that meet the requirement, given what GitHub answered and
    /// which of the versions in the tags meet the requirement.
    pub fn resolve(&self, answered: Result<&Vec<Release>, Failure>, accepts: &Vec<bool>) -> (r:
        Result<Vec<Candidate>, ResolveError>)
        requires
            answered matches Ok(releases) ==> accepts.len() == releases.len(),
        ensures
            match answered {
                Err(e) => r == Err::<Vec<Candidate>, ResolveError>(ResolveError::Request(e)),
                Ok(releases) => r is Ok && is_resolved(
                    tag_versions(releases@),
                    accepts@,
                    releases@.len() as int,
                    r->Ok_0@,
                ),
            },
    {
        match answered {
            Err(e) => Err(ResolveError::Request(e)),
            Ok(releases) => {
                let versions = self.read_releases(releases);
                assert(version_views(versions@).len() == tag_versions(releases@).len());
                Ok(collect_candidates(&versions, accepts))
            },
        }
    }

    /// The asset of a release to download for a version, and the request for it.
    pub fn download(
        &self,
        engine_ref: &Release,
        version: &Version,
        auth: &AuthConfig,
    ) -> (r: Result<(usize, Request), DownloadError>)
        ensures
            is_download(*self, engine_ref.assets@, version@, auth.tokens@, r),
            ({
                let k = first_wanted(self.asset_template@, version@, engine_ref.assets@);
                match r {
                    Err(e) => k == engine_ref.assets@.len() && e == DownloadError::AssetNotFound,
                    Ok((i, request)) => {
                        &&& i == k
                        &&& k < engine_ref.assets@.len()
                        &&& request.url == engine_ref.assets@[k].url
                        &&& request.accept is Some
                        &&& request.accept->0@ == "application/octet-stream"@
                        &&& request.token == github_token(auth.tokens@)
                    },
                }
            }),
    {
        proof {
            reveal_strlit("{VERSION}");
        }
        let full = version.to_text();
        let short = no_build_metadata(version).to_text();
        let first = text::replace(self.asset_template.as_str(), "{VERSION}", full.as_str());
        let second = text::replace(self.asset_template.as_str(), "{VERSION}", short.as_str());
        let ghost assets = engine_ref.assets@;
        let ghost wanted = |i: int| is_wanted(self.asset_template@, version@, assets[i].name@);
        let mut i: usize = 0;
        while i < engine_ref.assets.len()
            invariant
                i <= engine_ref.assets.len(),
                assets == engine_ref.assets@,
                first@ == asset_name(self.asset_template@, version_text(version@)),
                second@ == asset_name(self.asset_template@, version_text(without_build(version@))),
                wanted == (|i: int|
                    is_wanted(self.asset_template@, version@, assets[i].name@)),
                forall|j: int| 0 <= j < i ==> !(#[trigger] wanted(j)),
            decreases engine_ref.assets.len() - i,
        {
            let asset = &engine_ref.assets[i];
            if text::eq_ignore_ascii_case(asset.name.as_str(), first.as_str())
                || text::eq_ignore_ascii_case(asset.name.as_str(), second.as_str()) {
                proof {
                    assert(wanted(i as int));
                    search::lemma_first_index(assets.len() as int, wanted, i as int);
                }
                let request = Request {
                    url: asset.url.clone(),
                    accept: Some("application/octet-stream"),
                    token: find_github_token(auth),
                };
                return Ok((i, request));
            }
            assert(!wanted(i as int));
            i = i + 1;
        }
        proof {
            search::lemma_first_index(assets.len() as int, wanted, i as int);
        }
        Err(DownloadError::AssetNotFound)
    }

    /// What comes of a download, given how the request went and what the name of
    /// the asset is read as.
    pub fn finish_download<I>(&self, answered: Result<(), Failure>, info: Result<I, Failure>) -> (r:
        Result<I, DownloadError>)
        ensures
            r == download_outcome(answered, info),
            r == (match answered {
                Err(e) => Err::<I, DownloadError>(DownloadError::Request(e)),
                Ok(_) => match info {
                    Err(e) => Err(DownloadError::ParseAssetName(e)),
                    Ok(info) => Ok(info),
                },
            }),
    {
        match answered {
            Err(e) => Err(DownloadError::Request(e)),
            Ok(_) => match info {
                Err(e) => Err(DownloadError::ParseAssetName(e)),
                Ok(info) => Ok(info),
            },
        }
    }
}

} // verus!
