//! What holds of engines that are released on GitHub.

use super::{
    asks_for_releases, download_outcome, first_wanted, github_token, is_download, is_resolved,
    is_wanted, last_met, lies_below, lists, met, releases_url, tag_version, tag_versions, Asset,
    Candidate, GitHubEngineSource, Release, Request,
};
use super::errors::{download_error_chain, resolve_error_chain, DownloadError, ResolveError};
use crate::failure::Failure;
use crate::git_url::parsed_git_url;
use crate::keyed::{index_of_key, lemma_index_of_key};
use crate::project::Token;
use crate::query::{path_segment, segment_stays_one};
use crate::search;
use crate::text;
use crate::version::{
    parsed_version, plainly_lower, version_text, without_build, Version, VersionParts,
};
use vstd::prelude::*;

verus! {

proof fn lemma_last_met(
    versions: Seq<Option<VersionParts>>,
    accepts: Seq<bool>,
    n: int,
    v: VersionParts,
)
    ensures
        last_met(versions, accepts, n, v) matches Some(i) ==> 0 <= i < n && met(
            versions,
            accepts,
            i,
            v,
        ),
        forall|j: int|
            0 <= j < n && #[trigger] met(versions, accepts, j, v) ==> last_met(
                versions,
                accepts,
                n,
                v,
            ) is Some && j <= last_met(versions, accepts, n, v)->0,
    decreases n,
{
    if n > 0 {
        lemma_last_met(versions, accepts, n - 1, v);
    }
}

/// Every candidate is a release with that version, and it meets the requirement.
pub proof fn candidates_meet_the_requirement(
    versions: Seq<Option<VersionParts>>,
    accepts: Seq<bool>,
    list: Seq<Candidate>,
    k: int,
)
    requires
        is_resolved(versions, accepts, versions.len() as int, list),
        0 <= k < list.len(),
    ensures
        list[k].release < versions.len(),
        versions[list[k].release as int] == Some(list[k].version@),
        accepts[list[k].release as int],
{
    lemma_last_met(versions, accepts, versions.len() as int, list[k].version@);
    assert(last_met(versions, accepts, versions.len() as int, list[k].version@) == Some(
        list[k].release as int,
    ));
}

/// No version that meets the requirement is left out.
pub proof fn no_version_is_left_out(
    versions: Seq<Option<VersionParts>>,
    accepts: Seq<bool>,
    list: Seq<Candidate>,
    i: int,
)
    requires
        is_resolved(versions, accepts, versions.len() as int, list),
        0 <= i < versions.len(),
        versions[i] is Some,
        accepts[i],
    ensures
        exists|k: int|
            0 <= k < list.len() && (#[trigger] list[k]).version@ == versions[i]->0
                && list[k].release >= i,
{
    let n = versions.len() as int;
    let v = versions[i]->0;
    lemma_last_met(versions, accepts, n, v);
    assert(met(versions, accepts, i, v));
    let r = last_met(versions, accepts, n, v)->0;
    assert(lists(list, v, r));
    let k = choose|k: int|
        0 <= k < list.len() && (#[trigger] list[k]).version@ == v && list[k].release == r;
    assert(list[k].version@ == versions[i]->0 && list[k].release >= i);
}

/// Candidates come in the order of their numbers: one whose numbers are lower than
/// those of another, or that is a pre-release of it, stands before it.
pub proof fn lower_numbers_come_first(
    versions: Seq<Option<VersionParts>>,
    accepts: Seq<bool>,
    list: Seq<Candidate>,
    a: int,
    b: int,
)
    requires
        is_resolved(versions, accepts, versions.len() as int, list),
        0 <= a < list.len(),
        0 <= b < list.len(),
        plainly_lower(list[a].version@, list[b].version@),
    ensures
        a < b,
{
    if b < a {
        assert(lies_below(list[b].version@, list[a].version@));
    }
}

/// An asset that is downloaded has the right name, and no asset before it has.
pub proof fn downloaded_asset_is_wanted(
    template: Seq<char>,
    v: VersionParts,
    assets: Seq<Asset>,
    j: int,
)
    requires
        0 <= j < assets.len(),
    ensures
        first_wanted(template, v, assets) <= assets.len(),
        first_wanted(template, v, assets) == j ==> is_wanted(template, v, assets[j].name@),
        j < first_wanted(template, v, assets) ==> !is_wanted(template, v, assets[j].name@),
{
    let wanted = |i: int| is_wanted(template, v, assets[i].name@);
    search::lemma_first_index_bounds(assets.len() as int, wanted);
    if j < first_wanted(template, v, assets) {
        assert(!wanted(j));
    }
    if j == first_wanted(template, v, assets) {
        assert(wanted(j));
    }
}

/// An asset that is named without the build metadata of a version is wanted for
/// that version exactly if it is wanted for it in the full name or for the
/// version without the metadata.
pub proof fn build_metadata_may_be_left_out(template: Seq<char>, v: VersionParts, name: Seq<char>)
    ensures
        is_wanted(template, without_build(v), name) ==> is_wanted(template, v, name),
        v.4.len() == 0 ==> (is_wanted(template, v, name) <==> is_wanted(
            template,
            without_build(v),
            name,
        )),
{
    assert(without_build(without_build(v)) == without_build(v));
    if v.4.len() == 0 {
        assert(v.4 =~= Seq::<char>::empty());
        assert(without_build(v) == v);
    }
}

/// Whatever the owner and the repository are called, they are one segment each
/// of the path that is asked for.
pub proof fn names_stay_in_their_segments(owner: Seq<char>, repo: Seq<char>)
    ensures
        releases_url(owner, repo) == "https://api.github.com/repos/"@ + path_segment(owner) + "/"@
            + path_segment(repo) + "/releases"@,
        !path_segment(owner).contains('/'),
        !path_segment(repo).contains('/'),
{
    segment_stays_one(owner);
    segment_stays_one(repo);
}

/// The token for GitHub is that of the first site with the address that GitHub has as a URL,
/// and there is none if and only if there is no such site.
pub proof fn token_is_that_for_github(tokens: Seq<Token>)
    ensures
        ({
            let site = parsed_git_url("https://github.com"@)->Ok_0.0;
            match github_token(tokens) {
                Some(t) => exists|n: int|
                    {
                        &&& 0 <= n < tokens.len()
                        &&& (#[trigger] tokens[n]).url.text@ == site
                        &&& tokens[n].token == t
                        &&& forall|j: int| 0 <= j < n ==> (#[trigger] tokens[j]).url.text@ != site
                    },
                None => forall|j: int|
                    0 <= j < tokens.len() ==> (#[trigger] tokens[j]).url.text@ != site,
            }
        }),
{
    let site = parsed_git_url("https://github.com"@)->Ok_0.0;
    lemma_index_of_key(tokens, site);
    let n = index_of_key(tokens, site) as int;
    if n < tokens.len() {
        assert(tokens[n].url.text@ == site);
    }
}

/// The tag of a release is read as what is left of it without the letters `v` at its start.
pub proof fn tags_may_start_with_a_letter(tag: Seq<char>, n: int)
    requires
        0 <= n <= tag.len(),
        forall|i: int| 0 <= i < n ==> #[trigger] tag[i] == 'v',
        n < tag.len() ==> tag[n] != 'v',
    ensures
        match parsed_version(tag.skip(n)) {
            Ok(v) => tag_version(tag) == Some(v),
            Err(_) => tag_version(tag) is None,
        },
{
    text::what_is_dropped(tag, 'v', n);
}

/// The asset that is downloaded is the first one whose name is the template with the version
/// in the place of each `{VERSION}`, in full or without the build metadata, where upper and
/// lower case are the same.
pub proof fn first_asset_with_the_name_is_downloaded(
    template: Seq<char>,
    v: Version,
    assets: Seq<Asset>,
)
    ensures
        ({
            let full = text::replaced(template, "{VERSION}"@, version_text(v@));
            let short = text::replaced(
                template,
                "{VERSION}"@,
                version_text((v.major, v.minor, v.patch, v.pre@, Seq::<char>::empty())),
            );
            let k = first_wanted(template, v@, assets);
            &&& 0 <= k <= assets.len()
            &&& k < assets.len() ==> text::same_ignoring_case(assets[k].name@, full)
                || text::same_ignoring_case(assets[k].name@, short)
            &&& forall|j: int|
                0 <= j < k ==> !text::same_ignoring_case((#[trigger] assets[j]).name@, full)
                    && !text::same_ignoring_case(assets[j].name@, short)
        }),
{
    let wanted = |i: int| is_wanted(template, v@, assets[i].name@);
    search::lemma_first_index_bounds(assets.len() as int, wanted);
    let k = first_wanted(template, v@, assets);
    if k < assets.len() {
        assert(wanted(k));
    }
    assert forall|j: int| 0 <= j < k implies !text::same_ignoring_case(
        (#[trigger] assets[j]).name@,
        text::replaced(template, "{VERSION}"@, version_text(v@)),
    ) && !text::same_ignoring_case(
        assets[j].name@,
        text::replaced(
            template,
            "{VERSION}"@,
            version_text((v.major, v.minor, v.patch, v.pre@, Seq::<char>::empty())),
        ),
    ) by {
        assert(!wanted(j));
    }
}

/// Of the releases that meet the requirement, each version is listed once, in ascending
/// order, and of two releases with the same version the later one is taken.
pub proof fn later_releases_win(
    versions: Seq<Option<VersionParts>>,
    accepts: Seq<bool>,
    list: Seq<Candidate>,
    k: int,
    i: int,
)
    requires
        is_resolved(versions, accepts, versions.len() as int, list),
        0 <= k < list.len(),
        0 <= i < versions.len(),
        versions[i] == Some(list[k].version@),
        accepts[i],
    ensures
        i <= list[k].release,
{
    let n = versions.len() as int;
    let v = list[k].version@;
    lemma_last_met(versions, accepts, n, v);
    assert(met(versions, accepts, i, v));
    assert(last_met(versions, accepts, n, v) == Some(list[k].release as int));
}

/// Whether that is the token of the first site with the address of GitHub, or none if there is
/// no such site.
pub open spec fn is_token_of_github(tokens: Seq<Token>, token: Option<String>) -> bool {
    let site = parsed_git_url("https://github.com"@)->Ok_0.0;
    match token {
        Some(t) => exists|n: int|
            {
                &&& 0 <= n < tokens.len()
                &&& (#[trigger] tokens[n]).url.text@ == site
                &&& tokens[n].token == t
                &&& forall|j: int| 0 <= j < n ==> (#[trigger] tokens[j]).url.text@ != site
            },
        None => forall|j: int| 0 <= j < tokens.len() ==> (#[trigger] tokens[j]).url.text@ != site,
    }
}

/// Releases are asked for at the address of the repository, and with the token for GitHub,
/// where there is one.
pub proof fn releases_are_asked_for_with_the_token(
    source: GitHubEngineSource,
    tokens: Seq<Token>,
    request: Request,
)
    requires
        asks_for_releases(source, tokens, request),
    ensures
        request.url@ == "https://api.github.com/repos/"@ + path_segment(source.owner@) + "/"@
            + path_segment(source.repo@) + "/releases"@,
        request.accept is None,
        is_token_of_github(tokens, request.token),
{
    token_is_that_for_github(tokens);
}

/// What is downloaded is the file of the first asset with the right name, as it is and with
/// the token for GitHub, where there is one. It fails only if no asset has the right name.
pub proof fn assets_are_downloaded_with_the_token(
    source: GitHubEngineSource,
    assets: Seq<Asset>,
    v: Version,
    tokens: Seq<Token>,
    r: Result<(usize, Request), DownloadError>,
)
    requires
        is_download(source, assets, v@, tokens, r),
    ensures
        ({
            let full = text::replaced(source.asset_template@, "{VERSION}"@, version_text(v@));
            let short = text::replaced(
                source.asset_template@,
                "{VERSION}"@,
                version_text((v.major, v.minor, v.patch, v.pre@, Seq::<char>::empty())),
            );
            let n = match r {
                Ok((i, _)) => i as int,
                Err(_) => assets.len() as int,
            };
            &&& forall|j: int|
                0 <= j < n ==> !text::same_ignoring_case((#[trigger] assets[j]).name@, full)
                    && !text::same_ignoring_case(assets[j].name@, short)
            &&& r matches Ok((i, request)) ==> {
                &&& i < assets.len()
                &&& text::same_ignoring_case(assets[i as int].name@, full)
                    || text::same_ignoring_case(assets[i as int].name@, short)
                &&& request.url@ == assets[i as int].url@
                &&& (request.accept matches Some(t) && t@ == "application/octet-stream"@)
                &&& is_token_of_github(tokens, request.token)
            }
            &&& r matches Err(e) ==> e == DownloadError::AssetNotFound
        }),
{
    token_is_that_for_github(tokens);
    first_asset_with_the_name_is_downloaded(source.asset_template@, v, assets);
}

/// A download fails with the error of its request, if that failed, and else with that of the
/// name of the asset, if that cannot be read.
pub proof fn failed_requests_come_first<I>(answered: Result<(), Failure>, info: Result<I, Failure>)
    ensures
        answered matches Err(f) ==> download_outcome(answered, info) == Err::<I, DownloadError>(
            DownloadError::Request(f),
        ),
        answered is Ok ==> (info matches Err(f) ==> download_outcome(answered, info) == Err::<
            I,
            DownloadError,
        >(DownloadError::ParseAssetName(f))),
        answered is Ok ==> (info matches Ok(i) ==> download_outcome(answered, info) == Ok::<
            I,
            DownloadError,
        >(i)),
{
}

/// Each release has the version in its own tag.
pub proof fn releases_have_their_versions(releases: Seq<Release>, i: int)
    requires
        0 <= i < releases.len(),
    ensures
        tag_versions(releases).len() == releases.len(),
        tag_versions(releases)[i] == tag_version(releases[i].tag_name@),
{
}

/// What is said of each error, before what caused it.
pub proof fn wording_of_errors(f: Failure)
    ensures
        resolve_error_chain(ResolveError::Request(f)) == seq![
            "failed to handle GitHub API request"@,
        ] + f@,
        download_error_chain(DownloadError::AssetNotFound) == seq![
            "failed to find asset for current platform"@,
        ],
        download_error_chain(DownloadError::Request(f)) == seq![
            "failed to handle GitHub API request"@,
        ] + f@,
        download_error_chain(DownloadError::ParseAssetName(f)) == seq![
            "failed to parse asset name"@,
        ] + f@,
{
}

} // verus!
