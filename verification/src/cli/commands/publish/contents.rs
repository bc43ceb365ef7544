//! What a package must be like to be published, and what is put into it.

use super::errors::{Export, PublishError};
use super::included::{
    any_passes_through, ends_in, first_forbidden, first_ignored, has_readme, has_under,
    ignored_names, included_notices, is_readme_path, is_verdict, lowercase, Rules,
};
use super::notices::Notice;
use super::paths::{
    file_name_of, part_views, passes_through, path_views, single, FilePath, PartView,
};
use super::steps::{
    direct_types, is_step, manifest_added, PublishAction, PublishCommand, PublishEvent,
    PublishState, PublishStep,
};
use crate::failure::Failure;
use crate::project::{DependencyType, GraphNode, Lockfile, Manifest, Project, TargetKind};
use crate::search;
use crate::text;
use vstd::prelude::*;

verus! {

// The manifest.

/// A package is published only if it is not private, exports something and, for Roblox,
/// has files to build; the first of these that it fails ends the publication, and only
/// that it is private is no error. The user is told first what is published. For Roblox
/// the lockfile is looked at next, and for everything else the files.
pub proof fn publishable_packages_go_on(
    cmd: PublishCommand,
    project: Project,
    rules: Rules,
    m: Manifest,
    out: PublishStep,
)
    requires
        is_step(
            cmd,
            project,
            rules,
            PublishState::AwaitManifest,
            PublishEvent::Manifest(Ok::<Manifest, Failure>(m)),
            out,
        ),
    ensures
        ({
            let exports = m.target.lib_path is Some || m.target.bin_path is Some || (
            m.target.scripts matches Some(scripts) && scripts@.len() > 0);
            let roblox = m.target.kind == TargetKind::Roblox || m.target.kind
                == TargetKind::RobloxServer;
            let builds = m.target.build_files matches Some(files) && files@.len() > 0;
            &&& out.said@[0] == (Notice::NowPublishing { name: m.name, target: m.target.shown })
            &&& m.private <==> out.action == PublishAction::Done(Ok::<(), PublishError>(()))
            &&& m.private ==> out.said@.len() == 2 && out.said@[1] == Notice::Private
            &&& !m.private ==> out.said@.len() == 1
            &&& !m.private && !exports <==> out.action == PublishAction::Done(
                Err::<(), PublishError>(PublishError::NoExports),
            )
            &&& !m.private && exports && roblox && !builds <==> out.action == PublishAction::Done(
                Err::<(), PublishError>(PublishError::NoBuildFiles),
            )
            &&& !m.private && exports && roblox && builds <==> out.action
                == PublishAction::ReadLockfile
            &&& !m.private && exports && !roblox <==> out.action
                == PublishAction::CanonicalizePackage
            &&& out.action == PublishAction::ReadLockfile ==> out.state
                == PublishState::AwaitLockfile(m)
            &&& out.action == PublishAction::CanonicalizePackage ==> out.state
                == PublishState::AwaitPackageDir(m)
        }),
{
}

/// Each node of the graph with a direct entry counts with the type of that entry, whatever
/// the type, and no other node does.
pub proof fn every_direct_dependency_counts(graph: Seq<GraphNode>)
    ensures
        direct_types(graph) == graph.filter(|n: GraphNode| n.direct is Some).map_values(
            |n: GraphNode| n.direct->0.ty,
        ),
    decreases graph.len(),
{
    let is_there = |n: GraphNode| n.direct is Some;
    let ty = |n: GraphNode| n.direct->0.ty;
    reveal(Seq::filter);
    if graph.len() > 0 {
        let rest = graph.drop_last();
        every_direct_dependency_counts(rest);
        let kept = rest.filter(is_there);
        if graph.last().direct is Some {
            assert(graph.filter(is_there) == kept.push(graph.last()));
            assert(kept.push(graph.last()).map_values(ty) =~= kept.map_values(ty).push(
                ty(graph.last()),
            ));
        } else {
            assert(graph.filter(is_there) == kept);
        }
    } else {
        assert(graph.filter(is_there).map_values(ty) =~= Seq::<DependencyType>::empty());
    }
}

/// A package for Roblox takes a lockfile that is up to date; with one, the types of all
/// direct dependencies in it are looked at.
pub proof fn roblox_packages_take_a_lockfile(
    cmd: PublishCommand,
    project: Project,
    rules: Rules,
    m: Manifest,
    read: Option<Lockfile>,
    out: PublishStep,
)
    requires
        is_step(
            cmd,
            project,
            rules,
            PublishState::AwaitLockfile(m),
            PublishEvent::Lockfile(Ok::<Option<Lockfile>, Failure>(read)),
            out,
        ),
    ensures
        read is None <==> out.action == PublishAction::Done(
            Err::<(), PublishError>(PublishError::OutdatedLockfile),
        ),
        read matches Some(l) ==> out.action == PublishAction::FindEngines && (out.state matches
            PublishState::AwaitEngines(n, types) && n == m && types@ == l.graph@.filter(
            |n: GraphNode| n.direct is Some,
        ).map_values(|n: GraphNode| n.direct->0.ty)),
{
    if let Some(l) = read {
        every_direct_dependency_counts(l.graph@);
    }
}

// The files.

/// Whether a file belongs to the package: it was listed, or it is the manifest.
pub open spec fn belongs_to(listed: Seq<FilePath>, p: Seq<PartView>) -> bool {
    ||| exists|i: int| 0 <= i < listed.len() && #[trigger] part_views(listed[i].parts@) == p
    ||| p == seq![PartView::Normal("pesde.toml"@)]
}

/// Whether a file of the package lies in the git directory.
pub open spec fn holds_git(listed: Seq<FilePath>) -> bool {
    exists|p: Seq<PartView>| #[trigger]
        belongs_to(listed, p) && p.len() > 0 && p[0] == PartView::Normal(".git"@)
}

/// Whether a file of the package has one of the names that no file may have.
pub open spec fn holds_forbidden(listed: Seq<FilePath>, names: Seq<String>) -> bool {
    exists|p: Seq<PartView>, n: int|
        #![trigger belongs_to(listed, p), names[n]]
        belongs_to(listed, p) && 0 <= n < names.len() && p.len() > 0 && p[p.len() - 1]
            == PartView::Normal(names[n]@)
}

/// Whether a part of the path of a file of the package has one of the names.
pub open spec fn holds_part(listed: Seq<FilePath>, names: Seq<String>) -> bool {
    exists|p: Seq<PartView>, j: int, n: int|
        #![trigger belongs_to(listed, p), p[j], names[n]]
        belongs_to(listed, p) && 0 <= n < names.len() && 0 <= j < p.len() && p[j]
            == PartView::Normal(names[n]@)
}

/// The manifest belongs to the package whether it was listed or not.
proof fn lemma_belongs(listed: Seq<FilePath>, paths: Seq<FilePath>, p: Seq<PartView>)
    requires
        manifest_added(listed, paths),
    ensures
        belongs_to(listed, p) <==> exists|i: int| 0 <= i < paths.len() && #[trigger] paths[i]@ == p,
{
    let own = single("pesde.toml"@);
    if path_views(listed).contains(own) {
        let n = choose|n: int| 0 <= n < listed.len() && path_views(listed)[n] == own;
        assert(listed[n]@ == own);
        if exists|i: int| 0 <= i < paths.len() && #[trigger] paths[i]@ == p {
            let i = choose|i: int| 0 <= i < paths.len() && #[trigger] paths[i]@ == p;
            assert(part_views(listed[i].parts@) == p);
        }
        if belongs_to(listed, p) {
            if exists|i: int| 0 <= i < listed.len() && #[trigger] part_views(listed[i].parts@) == p {
                let i = choose|i: int|
                    0 <= i < listed.len() && #[trigger] part_views(listed[i].parts@) == p;
                assert(paths[i]@ == p);
            } else {
                assert(paths[n]@ == p);
            }
        }
    } else {
        let last = paths.len() - 1;
        assert(paths[last]@ == own);
        assert forall|i: int| 0 <= i < listed.len() implies #[trigger] paths[i] == listed[i] by {
            assert(paths.drop_last()[i] == paths[i]);
        }
        if exists|i: int| 0 <= i < paths.len() && #[trigger] paths[i]@ == p {
            let i = choose|i: int| 0 <= i < paths.len() && #[trigger] paths[i]@ == p;
            if i < listed.len() {
                assert(part_views(listed[i].parts@) == p);
            }
        }
        if belongs_to(listed, p) {
            if exists|i: int| 0 <= i < listed.len() && #[trigger] part_views(listed[i].parts@) == p {
                let i = choose|i: int|
                    0 <= i < listed.len() && #[trigger] part_views(listed[i].parts@) == p;
                assert(paths[i]@ == p);
            } else {
                assert(paths[last]@ == p);
            }
        }
    }
}

proof fn lemma_under(listed: Seq<FilePath>, paths: Seq<FilePath>, dir: Seq<char>)
    requires
        manifest_added(listed, paths),
    ensures
        has_under(paths, dir) <==> exists|p: Seq<PartView>| #[trigger]
            belongs_to(listed, p) && p.len() > 0 && p[0] == PartView::Normal(dir),
{
    if has_under(paths, dir) {
        let i = choose|i: int|
            0 <= i < paths.len() && single(dir).is_prefix_of(#[trigger] paths[i]@);
        let p = paths[i]@;
        lemma_belongs(listed, paths, p);
        assert(belongs_to(listed, p));
        assert(p.subrange(0, 1)[0] == p[0]);
        assert(p[0] == single(dir)[0]);
    }
    if exists|p: Seq<PartView>| #[trigger]
        belongs_to(listed, p) && p.len() > 0 && p[0] == PartView::Normal(dir) {
        let p = choose|p: Seq<PartView>| #[trigger]
            belongs_to(listed, p) && p.len() > 0 && p[0] == PartView::Normal(dir);
        lemma_belongs(listed, paths, p);
        let i = choose|i: int| 0 <= i < paths.len() && #[trigger] paths[i]@ == p;
        assert(p.subrange(0, 1) =~= single(dir));
        assert(single(dir).is_prefix_of(paths[i]@));
    }
}

proof fn lemma_forbidden(listed: Seq<FilePath>, paths: Seq<FilePath>, names: Seq<String>)
    requires
        manifest_added(listed, paths),
    ensures
        first_forbidden(paths, text::texts(names)) < paths.len() <==> holds_forbidden(
            listed,
            names,
        ),
        0 <= first_forbidden(paths, text::texts(names)) <= paths.len(),
        first_forbidden(paths, text::texts(names)) < paths.len() ==> ends_in(
            paths[first_forbidden(paths, text::texts(names))]@,
            text::texts(names),
        ),
{
    let holds = |i: int| ends_in(paths[i]@, text::texts(names));
    search::lemma_first_index_bounds(paths.len() as int, holds);
    let i = first_forbidden(paths, text::texts(names));
    if i < paths.len() {
        assert(holds(i));
        let p = paths[i]@;
        lemma_belongs(listed, paths, p);
        let name = file_name_of(p)->0;
        let n = choose|n: int| 0 <= n < text::texts(names).len() && text::texts(names)[n] == name;
        assert(names[n]@ == name);
        assert(belongs_to(listed, p) && p[p.len() - 1] == PartView::Normal(names[n]@));
    }
    if holds_forbidden(listed, names) {
        let (p, n) = choose|p: Seq<PartView>, n: int|
            #![trigger belongs_to(listed, p), names[n]]
            belongs_to(listed, p) && 0 <= n < names.len() && p.len() > 0 && p[p.len() - 1]
                == PartView::Normal(names[n]@);
        lemma_belongs(listed, paths, p);
        let j = choose|j: int| 0 <= j < paths.len() && #[trigger] paths[j]@ == p;
        assert(text::texts(names)[n] == names[n]@);
        assert(holds(j));
    }
}

proof fn lemma_part(
    listed: Seq<FilePath>,
    paths: Seq<FilePath>,
    files: Seq<String>,
    dirs: Seq<String>,
)
    requires
        manifest_added(listed, paths),
    ensures
        ({
            let names = text::texts(files) + text::texts(dirs);
            let j = first_ignored(paths, names);
            &&& j < names.len() <==> holds_part(listed, files) || holds_part(listed, dirs)
            &&& 0 <= j <= names.len()
        }),
{
    let names = text::texts(files) + text::texts(dirs);
    let holds = |i: int| any_passes_through(paths, names[i]);
    search::lemma_first_index_bounds(names.len() as int, holds);
    let j = first_ignored(paths, names);
    if j < names.len() {
        assert(holds(j));
        let i = choose|i: int| 0 <= i < paths.len() && passes_through(#[trigger] paths[i]@, names[j]);
        let p = paths[i]@;
        lemma_belongs(listed, paths, p);
        let a = choose|a: int| 0 <= a < p.len() && p[a] == PartView::Normal(names[j]);
        assert(belongs_to(listed, p) && p[a] == PartView::Normal(names[j]));
        if j < files.len() {
            assert(files[j]@ == names[j]);
        } else {
            assert(dirs[j - files.len()]@ == names[j]);
        }
    }
    if holds_part(listed, files) {
        let (p, a, n) = choose|p: Seq<PartView>, a: int, n: int|
            #![trigger belongs_to(listed, p), p[a], files[n]]
            belongs_to(listed, p) && 0 <= n < files.len() && 0 <= a < p.len() && p[a]
                == PartView::Normal(files[n]@);
        lemma_belongs(listed, paths, p);
        let i = choose|i: int| 0 <= i < paths.len() && #[trigger] paths[i]@ == p;
        assert(names[n] == files[n]@);
        assert(p.contains(PartView::Normal(names[n])));
        assert(passes_through(paths[i]@, names[n]));
        assert(holds(n));
    }
    if holds_part(listed, dirs) {
        let (p, a, n) = choose|p: Seq<PartView>, a: int, n: int|
            #![trigger belongs_to(listed, p), p[a], dirs[n]]
            belongs_to(listed, p) && 0 <= n < dirs.len() && 0 <= a < p.len() && p[a]
                == PartView::Normal(dirs[n]@);
        lemma_belongs(listed, paths, p);
        let i = choose|i: int| 0 <= i < paths.len() && #[trigger] paths[i]@ == p;
        assert(names[files.len() + n] == dirs[n]@);
        assert(p.contains(PartView::Normal(names[files.len() + n])));
        assert(passes_through(paths[i]@, names[files.len() + n]));
        assert(holds(files.len() + n));
    }
}

/// A publication goes on with its files if and only if none lies in the git directory, none
/// has a name that no file may have, and no part of a path is a file or a directory that
/// is left out of packages. If more than one of these fails, the first is told.
pub proof fn only_allowed_files_are_published(
    cmd: PublishCommand,
    project: Project,
    rules: Rules,
    m: Manifest,
    listed: Vec<FilePath>,
    out: PublishStep,
)
    requires
        is_step(
            cmd,
            project,
            rules,
            PublishState::AwaitFiles(m),
            PublishEvent::Files(Ok::<Vec<FilePath>, Failure>(listed)),
            out,
        ),
    ensures
        out.state is Exports <==> !holds_git(listed@) && !holds_forbidden(
            listed@,
            rules.forbidden_files@,
        ) && !holds_part(listed@, rules.ignored_files@) && !holds_part(
            listed@,
            rules.ignored_dirs@,
        ),
        out.action == PublishAction::Done(Err::<(), PublishError>(PublishError::GitIncluded))
            <==> holds_git(listed@),
        (out.action matches PublishAction::Done(Err(PublishError::ForbiddenEntry(_)))) <==> !(
        holds_git(listed@)) && !holds_forbidden(listed@, rules.forbidden_files@) && (holds_part(
            listed@,
            rules.ignored_files@,
        ) || holds_part(listed@, rules.ignored_dirs@)),
        out.action matches PublishAction::Done(Err(PublishError::ForbiddenFile { name, path }))
            ==> name@ != "default.project.json"@,
        out.state matches PublishState::Exports(d, which) ==> which == Export::Lib && d.manifest
            == m && d.build_shown@.len() == 0 && forall|p: Seq<PartView>|
            path_views(d.paths@).contains(p) <==> #[trigger] belongs_to(listed@, p),
{
    let (paths, verdict) = choose|paths: Vec<FilePath>, verdict: Option<PublishError>|
        #![trigger is_verdict(rules, paths@, verdict)]
        {
            &&& manifest_added(listed@, paths@)
            &&& is_verdict(rules, paths@, verdict)
            &&& match verdict {
                Some(e) => out.state == PublishState::Finished && out.action
                    == PublishAction::Done(Err(e)),
                None => {
                    &&& out.action == PublishAction::Proceed
                    &&& out.state matches PublishState::Exports(d, which)
                    &&& which == Export::Lib
                    &&& d.manifest == m
                    &&& d.paths == paths
                    &&& d.build_shown@ == Seq::<String>::empty()
                },
            }
        };
    lemma_under(listed@, paths@, ".git"@);
    lemma_forbidden(listed@, paths@, rules.forbidden_files@);
    lemma_part(listed@, paths@, rules.ignored_files@, rules.ignored_dirs@);
    assert(ignored_names(rules) == text::texts(rules.ignored_files@) + text::texts(
        rules.ignored_dirs@,
    ));
    assert forall|p: Seq<PartView>| path_views(paths@).contains(p) <==> #[trigger] belongs_to(
        listed@,
        p,
    ) by {
        lemma_belongs(listed@, paths@, p);
        if path_views(paths@).contains(p) {
            let i = choose|i: int| 0 <= i < paths@.len() && path_views(paths@)[i] == p;
            assert(paths@[i]@ == p);
        }
        if exists|i: int| 0 <= i < paths@.len() && #[trigger] paths@[i]@ == p {
            let i = choose|i: int| 0 <= i < paths@.len() && #[trigger] paths@[i]@ == p;
            assert(path_views(paths@)[i] == p);
        }
    }
}

/// Whether the path of one of the files, in lower case, is that of a README.
pub open spec fn lists_readme(listed: Seq<FilePath>) -> bool {
    exists|i: int|
        0 <= i < listed.len() && (lowercase(#[trigger] listed[i].text@) == "readme"@ || lowercase(
            listed[i].text@,
        ) == "readme.md"@ || lowercase(listed[i].text@) == "readme.txt"@)
}

/// Where the manifest was listed, it is not said that it was added, and otherwise it is, first
/// of all. Of files that the git directory is not among, it is said that there is no README
/// if there is none, and that there is no directory of documentation if there is none.
pub proof fn missing_files_are_pointed_out(
    cmd: PublishCommand,
    project: Project,
    rules: Rules,
    m: Manifest,
    listed: Vec<FilePath>,
    out: PublishStep,
)
    requires
        is_step(
            cmd,
            project,
            rules,
            PublishState::AwaitFiles(m),
            PublishEvent::Files(Ok::<Vec<FilePath>, Failure>(listed)),
            out,
        ),
    ensures
        out.said@.contains(Notice::ManifestAdded) <==> !(exists|i: int|
            0 <= i < listed@.len() && #[trigger] part_views(listed@[i].parts@) == seq![
                PartView::Normal("pesde.toml"@),
            ]),
        !out.said@.contains(Notice::ManifestAdded) && !holds_git(listed@) ==> (out.said@.contains(
            Notice::NoReadme,
        ) <==> !lists_readme(listed@)),
        out.said@.contains(Notice::NoDocs) <==> !holds_git(listed@) && !(exists|
            p: Seq<PartView>,
        | #[trigger]
            belongs_to(listed@, p) && p.len() > 0 && p[0] == PartView::Normal("docs"@)),
        holds_git(listed@) ==> !out.said@.contains(Notice::NoReadme),
{
    let (paths, verdict) = choose|paths: Vec<FilePath>, verdict: Option<PublishError>|
        #![trigger is_verdict(rules, paths@, verdict)]
        {
            &&& manifest_added(listed@, paths@)
            &&& is_verdict(rules, paths@, verdict)
            &&& out.said@ == included_notices(listed@, paths@)
        };
    lemma_under(listed@, paths@, ".git"@);
    lemma_under(listed@, paths@, "docs"@);
    let own = single("pesde.toml"@);
    let added = if path_views(listed@).contains(own) {
        Seq::<Notice>::empty()
    } else {
        seq![Notice::ManifestAdded]
    };
    if path_views(listed@).contains(own) {
        let i = choose|i: int| 0 <= i < listed@.len() && path_views(listed@)[i] == own;
        assert(part_views(listed@[i].parts@) == own);
    }
    if exists|i: int|
        0 <= i < listed@.len() && #[trigger] part_views(listed@[i].parts@) == seq![
            PartView::Normal("pesde.toml"@),
        ] {
        let i = choose|i: int|
            0 <= i < listed@.len() && #[trigger] part_views(listed@[i].parts@) == seq![
                PartView::Normal("pesde.toml"@),
            ];
        assert(path_views(listed@)[i] == own);
    }
    let readme = if has_readme(paths@) {
        Seq::<Notice>::empty()
    } else {
        seq![Notice::NoReadme]
    };
    let docs = if has_under(paths@, "docs"@) {
        Seq::<Notice>::empty()
    } else {
        seq![Notice::NoDocs]
    };
    if added.len() > 0 {
        assert(out.said@[0] == Notice::ManifestAdded);
    } else {
        assert(paths@ == listed@);
        if has_readme(paths@) {
            let i = choose|i: int|
                0 <= i < paths@.len() && is_readme_path(
                    lowercase(#[trigger] paths@[i].text@),
                );
            assert(lists_readme(listed@));
        }
        if lists_readme(listed@) {
            let i = choose|i: int|
                0 <= i < listed@.len() && (lowercase(#[trigger] listed@[i].text@) == "readme"@
                    || lowercase(listed@[i].text@) == "readme.md"@ || lowercase(
                    listed@[i].text@,
                ) == "readme.txt"@);
            assert(is_readme_path(lowercase(paths@[i].text@)));
        }
    }
    if !has_under(paths@, ".git"@) {
        assert(out.said@ == added + readme + docs);
        if readme.len() > 0 {
            assert((added + readme + docs)[added.len() as int] == Notice::NoReadme);
        }
        if docs.len() > 0 {
            assert((added + readme + docs)[(added.len() + readme.len()) as int] == Notice::NoDocs);
        }
    }
}

/// A file that is refused for its name is the first of the files with such a name; it is told
/// with its path, and a project file as such. Of names that may not occur in a path, the
/// first one that does is told, files before directories.
pub proof fn refused_files_are_named(
    cmd: PublishCommand,
    project: Project,
    rules: Rules,
    m: Manifest,
    listed: Vec<FilePath>,
    out: PublishStep,
)
    requires
        path_views(listed@).contains(seq![PartView::Normal("pesde.toml"@)]),
        is_step(
            cmd,
            project,
            rules,
            PublishState::AwaitFiles(m),
            PublishEvent::Files(Ok::<Vec<FilePath>, Failure>(listed)),
            out,
        ),
    ensures
        out.action matches PublishAction::Done(Err(PublishError::ForbiddenFile { name, path }))
            ==> exists|i: int|
            #![trigger listed@[i]]
            first_refused(listed@, rules.forbidden_files@, i) && is_called(listed@[i], name@)
                && listed@[i].text == path,
        out.action matches PublishAction::Done(Err(PublishError::ProjectFileIncluded(path)))
            ==> exists|i: int|
            #![trigger listed@[i]]
            first_refused(listed@, rules.forbidden_files@, i) && is_called(
                listed@[i],
                "default.project.json"@,
            ) && listed@[i].text == path,
        out.action matches PublishAction::Done(Err(PublishError::ForbiddenEntry(name))) ==> exists|
            n: int,
        |
            {
                &&& 0 <= n < rules.ignored_files@.len() + rules.ignored_dirs@.len()
                &&& name@ == #[trigger] nth_name(rules, n)
                &&& any_passes_through(listed@, name@)
                &&& forall|j: int|
                    0 <= j < n ==> !any_passes_through(listed@, #[trigger] nth_name(rules, j))
            },
{
    let (paths, verdict) = choose|paths: Vec<FilePath>, verdict: Option<PublishError>|
        #![trigger is_verdict(rules, paths@, verdict)]
        {
            &&& manifest_added(listed@, paths@)
            &&& is_verdict(rules, paths@, verdict)
            &&& match verdict {
                Some(e) => out.state == PublishState::Finished && out.action
                    == PublishAction::Done(Err(e)),
                None => out.action == PublishAction::Proceed,
            }
        };
    assert(paths@ == listed@);
    let names = rules.forbidden_files@;
    let holds = |i: int| ends_in(paths@[i]@, text::texts(names));
    search::lemma_first_index_bounds(paths@.len() as int, holds);
    let i = first_forbidden(paths@, text::texts(names));
    assert forall|j: int| 0 <= j < listed@.len() implies ends_in(
        (#[trigger] listed@[j])@,
        text::texts(names),
    ) == has_name_of(listed@[j], names) by {
        lemma_ends_in(listed@[j], names);
    }
    if i < paths@.len() {
        assert(holds(i));
        let last = listed@[i].parts@.len() - 1;
        assert(listed@[i]@.last() == listed@[i].parts@[last]@);
        assert forall|j: int| 0 <= j < i implies !has_name_of(#[trigger] listed@[j], names) by {
            assert(!holds(j));
        }
        assert(first_refused(listed@, names, i));
    }
    let all = ignored_names(rules);
    let passes = |k: int| any_passes_through(paths@, all[k]);
    search::lemma_first_index_bounds(all.len() as int, passes);
    let k = first_ignored(paths@, all);
    assert forall|n: int| 0 <= n < all.len() implies all[n] == #[trigger] nth_name(rules, n) by {
        if n < rules.ignored_files@.len() {
            assert(text::texts(rules.ignored_files@)[n] == rules.ignored_files@[n]@);
        } else {
            let j = n - rules.ignored_files@.len();
            assert(text::texts(rules.ignored_dirs@)[j] == rules.ignored_dirs@[j]@);
        }
    }
    if k < all.len() {
        assert(passes(k));
        assert(all[k] == nth_name(rules, k));
        assert forall|j: int| 0 <= j < k implies !any_passes_through(
            listed@,
            #[trigger] nth_name(rules, j),
        ) by {
            assert(!passes(j));
        }
    }
}

/// Whether the last part of the path is that name.
pub open spec fn is_called(p: FilePath, name: Seq<char>) -> bool {
    p.parts@.len() > 0 && p.parts@[p.parts@.len() - 1]@ == PartView::Normal(name)
}

/// Whether the last part of the path is one of the names.
pub open spec fn has_name_of(p: FilePath, names: Seq<String>) -> bool {
    exists|n: int| 0 <= n < names.len() && is_called(p, (#[trigger] names[n])@)
}

/// Whether the file with that number is the first one that is called by one of the names.
pub open spec fn first_refused(listed: Seq<FilePath>, names: Seq<String>, i: int) -> bool {
    &&& 0 <= i < listed.len()
    &&& has_name_of(listed[i], names)
    &&& forall|j: int| 0 <= j < i ==> !has_name_of(#[trigger] listed[j], names)
}

/// The names that may not occur in a path, files before directories.
pub open spec fn nth_name(rules: Rules, n: int) -> Seq<char> {
    if n < rules.ignored_files@.len() {
        rules.ignored_files@[n]@
    } else {
        rules.ignored_dirs@[n - rules.ignored_files@.len()]@
    }
}

proof fn lemma_ends_in(p: FilePath, names: Seq<String>)
    ensures
        ends_in(p@, text::texts(names)) == has_name_of(p, names),
{
    let n = p.parts@.len();
    assert(p@.len() == n);
    if n > 0 {
        assert(p@.last() == p.parts@[n - 1]@);
    }
    if ends_in(p@, text::texts(names)) {
        let name = file_name_of(p@)->0;
        let k = choose|k: int| 0 <= k < text::texts(names).len() && text::texts(names)[k] == name;
        assert(is_called(p, names[k]@));
    }
    if has_name_of(p, names) {
        let k = choose|k: int| 0 <= k < names.len() && is_called(p, (#[trigger] names[k])@);
        assert(text::texts(names)[k] == names[k]@);
    }
}

} // verus!
