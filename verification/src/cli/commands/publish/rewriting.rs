//! What becomes of the dependencies of a package that is published.

use super::destination::{first_named, manifest_stays_that_of_the_package, same_package};
use super::errors::PublishError;
use super::included::Rules;
use super::laws::{admitted, draft_of, is_run, manifest_of, settled};
use super::steps::{
    awaits, is_step, respecified, Draft, MemberOutcome, PublishAction, PublishCommand, PublishEvent,
    PublishState, PublishStep,
};
use crate::failure::Failure;
use crate::keyed::{index_of_key, lemma_index_of_key};
use crate::project::{
    DependencySpecifiers, Index, Manifest, Project, SpecifierView, TargetKind, VersionTypeOrReq,
};
use crate::version::{parsed_requirement, version_text};
use vstd::prelude::*;

verus! {

/// Whether a workspace dependency is published as that requirement, index and target, given
/// what was read of the member: the requirement that the dependency names, or its sign
/// before the version of the member, or any version; the default index of the member; and
/// the target that the dependency names, or else that of the member.
pub open spec fn published_as_member(
    e: PublishEvent,
    accepts: VersionTypeOrReq,
    wanted: Option<TargetKind>,
    version: Seq<char>,
    index: Seq<char>,
    target: Option<TargetKind>,
) -> bool {
    &&& e matches PublishEvent::Member(
        MemberOutcome::Manifest { version: of_member, indices, target: kind },
    )
    &&& match accepts {
        VersionTypeOrReq::Wildcard => version == "*"@,
        VersionTypeOrReq::Req(q) => version == q@,
        VersionTypeOrReq::Sign(sign) => parsed_requirement(sign@ + version_text(of_member@))
            == Ok::<Seq<char>, Seq<char>>(version),
    }
    &&& exists|n: int| #[trigger]
        first_named(indices@, "default"@, n) && indices@[n].url.shown@ == index
    &&& target == Some(
        match wanted {
            Some(t) => t,
            None => kind,
        },
    )
}

/// Whether a dependency of the manifest is published as that specifier: one on an index
/// under the URL that the manifest has for that index, one on git as it is, and one on a
/// workspace member as one of the versions of the member in an index. No path is published.
pub open spec fn published_as(
    m: Manifest,
    specifier: DependencySpecifiers,
    v: SpecifierView,
    events: Seq<PublishEvent>,
    k: int,
) -> bool {
    match specifier {
        DependencySpecifiers::Pesde { name, version, index, target } => {
            &&& v matches SpecifierView::Pesde { name: n, version: q, index: url, target: t }
            &&& n == name@
            &&& q == version@
            &&& t == target
            &&& exists|i: int| #[trigger]
                first_named(m.indices@, index@, i) && m.indices@[i].url.shown@ == url
        },
        DependencySpecifiers::Wally { package, index } => {
            &&& v matches SpecifierView::Wally { package: p, index: url }
            &&& p == package@
            &&& exists|i: int| #[trigger]
                first_named(m.wally_indices@, index@, i) && m.wally_indices@[i].url.shown@ == url
        },
        DependencySpecifiers::Git(s) => v == SpecifierView::Git(s@),
        DependencySpecifiers::Workspace { name, accepts, target } => {
            &&& v matches SpecifierView::Pesde { name: n, version, index, target: t }
            &&& n == name@
            &&& exists|j: int|
                0 <= j < k && published_as_member(
                    #[trigger] events[j],
                    accepts,
                    target,
                    version,
                    index,
                    t,
                )
        },
        DependencySpecifiers::Path(_) => false,
    }
}

/// What became of the dependencies up to that state: those that were dealt with are as they
/// will be published, and the others as they were read.
pub open spec fn on_course(
    m: Manifest,
    s: PublishState,
    events: Seq<PublishEvent>,
    k: int,
) -> bool {
    draft_of(s) matches Some(d) ==> {
        &&& d.manifest.dependencies@.len() == m.dependencies@.len()
        &&& forall|j: int|
            #![trigger d.manifest.dependencies@[j]]
            0 <= j < m.dependencies@.len() ==> if j < settled(s) {
                published_as(
                    m,
                    m.dependencies@[j].specifier,
                    d.manifest.dependencies@[j].specifier@,
                    events,
                    k,
                )
            } else {
                d.manifest.dependencies@[j] == m.dependencies@[j]
            }
    }
}

proof fn lemma_named(indices: Seq<Index>, name: Seq<char>)
    ensures
        index_of_key(indices, name) < indices.len() ==> first_named(
            indices,
            name,
            index_of_key(indices, name) as int,
        ),
        index_of_key(indices, name) >= indices.len() ==> forall|i: int|
            0 <= i < indices.len() ==> (#[trigger] indices[i]).name@ != name,
        index_of_key(indices, name) <= indices.len(),
{
    lemma_index_of_key(indices, name);
    assert forall|i: int| 0 <= i < index_of_key(indices, name) implies (
    #[trigger] indices[i]).name@ != name by {}
}

proof fn lemma_published_later(
    m: Manifest,
    specifier: DependencySpecifiers,
    v: SpecifierView,
    events: Seq<PublishEvent>,
    k: int,
)
    requires
        published_as(m, specifier, v, events, k),
    ensures
        published_as(m, specifier, v, events, k + 1),
{
    if let DependencySpecifiers::Workspace { name, accepts, target } = specifier {
        let version = v->Pesde_version;
        let index = v->Pesde_index;
        let t = v->Pesde_target;
        let j = choose|j: int|
            0 <= j < k && published_as_member(
                #[trigger] events[j],
                accepts,
                target,
                version,
                index,
                t,
            );
        assert(0 <= j < k + 1 && published_as_member(
            events[j],
            accepts,
            target,
            version,
            index,
            t,
        ));
    }
}

/// How a step that deals with a dependency goes on.
proof fn lemma_dealt_with(
    m: Manifest,
    s: PublishState,
    d: Draft,
    i: usize,
    v: SpecifierView,
    d2: Draft,
    t: PublishState,
    events: Seq<PublishEvent>,
    k: int,
)
    requires
        on_course(m, s, events, k),
        draft_of(s) == Some(d),
        settled(s) == i,
        i < d.manifest.dependencies@.len(),
        respecified(d, i, v, d2),
        published_as(m, m.dependencies@[i as int].specifier, v, events, k + 1),
        draft_of(t) == Some(d2),
        settled(t) == i + 1,
    ensures
        on_course(m, t, events, k + 1),
{
    assert forall|j: int|
        #![trigger d2.manifest.dependencies@[j]]
        0 <= j < m.dependencies@.len() implies if j < settled(t) {
        published_as(
            m,
            m.dependencies@[j].specifier,
            d2.manifest.dependencies@[j].specifier@,
            events,
            k + 1,
        )
    } else {
        d2.manifest.dependencies@[j] == m.dependencies@[j]
    } by {
        let old_one = d.manifest.dependencies@[j];
        if j < i {
            lemma_published_later(
                m,
                m.dependencies@[j].specifier,
                old_one.specifier@,
                events,
                k,
            );
        }
    }
}

/// How a step that changes no dependency goes on.
proof fn lemma_left_alone(
    m: Manifest,
    s: PublishState,
    t: PublishState,
    events: Seq<PublishEvent>,
    k: int,
)
    requires
        on_course(m, s, events, k),
        draft_of(s) is Some,
        draft_of(t) is Some,
        draft_of(t)->0.manifest.dependencies == draft_of(s)->0.manifest.dependencies,
        settled(t) == settled(s),
    ensures
        on_course(m, t, events, k + 1),
{
    let d = draft_of(s)->0;
    let d2 = draft_of(t)->0;
    assert forall|j: int|
        #![trigger d2.manifest.dependencies@[j]]
        0 <= j < m.dependencies@.len() implies if j < settled(t) {
        published_as(
            m,
            m.dependencies@[j].specifier,
            d2.manifest.dependencies@[j].specifier@,
            events,
            k + 1,
        )
    } else {
        d2.manifest.dependencies@[j] == m.dependencies@[j]
    } by {
        let old_one = d.manifest.dependencies@[j];
        if j < settled(s) {
            lemma_published_later(
                m,
                m.dependencies@[j].specifier,
                old_one.specifier@,
                events,
                k,
            );
        }
    }
}

#[verifier::spinoff_prover]
proof fn taken_up_in_step(
    cmd: PublishCommand,
    project: Project,
    rules: Rules,
    m: Manifest,
    d: Draft,
    i: usize,
    out: PublishStep,
    events: Seq<PublishEvent>,
    k: int,
)
    requires
        is_step(
            cmd,
            project,
            rules,
            PublishState::Dependencies(d, i),
            PublishEvent::Proceed,
            out,
        ),
        on_course(m, PublishState::Dependencies(d, i), events, k),
        same_package(m, d.manifest),
        draft_of(out.state) is Some,
    ensures
        on_course(m, out.state, events, k + 1),
{
    let s = PublishState::Dependencies(d, i);
    let t = out.state;
    if i >= d.manifest.dependencies@.len() {
        lemma_left_alone(m, s, t, events, k);
    } else {
        let specifier = d.manifest.dependencies@[i as int].specifier;
        assert(d.manifest.dependencies@[i as int] == m.dependencies@[i as int]);
        match specifier {
            DependencySpecifiers::Pesde { name, version, index, target } => {
                lemma_named(m.indices@, index@);
                let d2 = draft_of(t)->0;
                let n = index_of_key(m.indices@, index@) as int;
                let v = SpecifierView::Pesde {
                    name: name@,
                    version: version@,
                    index: m.indices@[n].url.shown@,
                    target,
                };
                assert(respecified(d, i, v, d2));
                assert(first_named(m.indices@, index@, n));
                lemma_dealt_with(m, s, d, i, v, d2, t, events, k);
            },
            DependencySpecifiers::Wally { package, index } => {
                lemma_named(m.wally_indices@, index@);
                let d2 = draft_of(t)->0;
                let n = index_of_key(m.wally_indices@, index@) as int;
                let v = SpecifierView::Wally {
                    package: package@,
                    index: m.wally_indices@[n].url.shown@,
                };
                assert(respecified(d, i, v, d2));
                assert(first_named(m.wally_indices@, index@, n));
                lemma_dealt_with(m, s, d, i, v, d2, t, events, k);
            },
            DependencySpecifiers::Git(g) => {
                let d2 = draft_of(t)->0;
                lemma_dealt_with(m, s, d, i, SpecifierView::Git(g@), d2, t, events, k);
            },
            DependencySpecifiers::Workspace { .. } => {
                lemma_left_alone(m, s, t, events, k);
            },
            DependencySpecifiers::Path(_) => {},
        }
    }
}

#[verifier::spinoff_prover]
proof fn replaced_in_step(
    cmd: PublishCommand,
    project: Project,
    rules: Rules,
    m: Manifest,
    d: Draft,
    i: usize,
    e: PublishEvent,
    out: PublishStep,
    events: Seq<PublishEvent>,
    k: int,
)
    requires
        awaits(PublishState::AwaitMember(d, i), e),
        is_step(cmd, project, rules, PublishState::AwaitMember(d, i), e, out),
        on_course(m, PublishState::AwaitMember(d, i), events, k),
        0 <= k,
        events[k] == e,
        draft_of(out.state) is Some,
    ensures
        on_course(m, out.state, events, k + 1),
{
    let s = PublishState::AwaitMember(d, i);
    let t = out.state;
    let d2 = draft_of(t)->0;
    assert(d.manifest.dependencies@[i as int] == m.dependencies@[i as int]);
    if let PublishEvent::Member(MemberOutcome::Manifest { version, indices, target: kind }) = e {
        if let DependencySpecifiers::Workspace { name, accepts, target } =
            d.manifest.dependencies@[i as int].specifier {
            lemma_named(indices@, "default"@);
            let n = index_of_key(indices@, "default"@) as int;
            let v = d2.manifest.dependencies@[i as int].specifier@;
            assert(respecified(d, i, v, d2));
            assert(first_named(indices@, "default"@, n));
            assert(published_as_member(
                events[k],
                accepts,
                target,
                v->Pesde_version,
                v->Pesde_index,
                v->Pesde_target,
            ));
            lemma_dealt_with(m, s, d, i, v, d2, t, events, k);
        }
    }
}

#[verifier::rlimit(40)]
#[verifier::spinoff_prover]
proof fn unchanged_in_step(
    cmd: PublishCommand,
    project: Project,
    rules: Rules,
    s: PublishState,
    e: PublishEvent,
    out: PublishStep,
)
    requires
        awaits(s, e),
        is_step(cmd, project, rules, s, e, out),
        !(s is Dependencies) && !(s is AwaitMember),
        draft_of(out.state) is Some,
    ensures
        match draft_of(s) {
            Some(d) => draft_of(out.state)->0.manifest.dependencies == d.manifest.dependencies
                && settled(out.state) == settled(s),
            None => manifest_of(s) == Some(draft_of(out.state)->0.manifest) && settled(out.state)
                == 0,
        },
{
    match (s, e) {
        (PublishState::AwaitExportPath(d, which, contents), PublishEvent::Canonical(Ok(file))) => {
            if !(out.state is AwaitExportErrors) {
                let d2 = admitted(d, which, file, out);
            }
        },
        (PublishState::AwaitExportErrors(d, which, file), _) => {
            let d2 = admitted(d, which, file, out);
        },
        _ => {},
    }
}

proof fn on_course_so_far(
    cmd: PublishCommand,
    project: Project,
    rules: Rules,
    states: Seq<PublishState>,
    events: Seq<PublishEvent>,
    outs: Seq<PublishStep>,
    k: int,
    m: Manifest,
)
    requires
        is_run(cmd, project, rules, states, events, outs),
        0 <= k <= events.len(),
        events.len() > 0,
        events[0] == PublishEvent::Manifest(Ok::<Manifest, Failure>(m)),
    ensures
        on_course(m, states[k], events, k),
        manifest_of(states[k]) is Some && draft_of(states[k]) is None ==> manifest_of(states[k])->0
            == m,
    decreases k,
{
    if k > 0 {
        on_course_so_far(cmd, project, rules, states, events, outs, k - 1, m);
        manifest_stays_that_of_the_package(cmd, project, rules, states, events, outs, k - 1);
        let e = events[k - 1];
        let s = states[k - 1];
        let out = outs[k - 1];
        assert(awaits(s, e) && is_step(cmd, project, rules, s, e, out));
        if draft_of(out.state) is Some {
            match s {
                PublishState::Dependencies(d, i) => {
                    taken_up_in_step(cmd, project, rules, m, d, i, out, events, k - 1);
                },
                PublishState::AwaitMember(d, i) => {
                    replaced_in_step(cmd, project, rules, m, d, i, e, out, events, k - 1);
                },
                _ => {
                    unchanged_in_step(cmd, project, rules, s, e, out);
                    if draft_of(s) is Some {
                        lemma_left_alone(m, s, out.state, events, k - 1);
                    }
                },
            }
        }
    }
}

/// Over every publication, the dependencies of the manifest that is put into the archive are
/// those that were read, in the same order and each under the same alias and of the same
/// type. One on an index names the URL that the manifest has for that index, and is
/// otherwise the same; one on git is the same; and one on a workspace member names that
/// package in the default index of the member, by the requirement that the dependency
/// stands for given the version of the member.
pub proof fn dependencies_are_published(
    cmd: PublishCommand,
    project: Project,
    rules: Rules,
    states: Seq<PublishState>,
    events: Seq<PublishEvent>,
    outs: Seq<PublishStep>,
    k: int,
    m: Manifest,
    d: Draft,
    j: int,
)
    requires
        is_run(cmd, project, rules, states, events, outs),
        0 <= k <= events.len(),
        events.len() > 0,
        events[0] == PublishEvent::Manifest(Ok::<Manifest, Failure>(m)),
        states[k] == PublishState::AwaitArchive(d),
        0 <= j < m.dependencies@.len(),
    ensures
        d.manifest.dependencies@.len() == m.dependencies@.len(),
        d.manifest.dependencies@[j].alias@ == m.dependencies@[j].alias@,
        d.manifest.dependencies@[j].ty == m.dependencies@[j].ty,
        published_as(
            m,
            m.dependencies@[j].specifier,
            d.manifest.dependencies@[j].specifier@,
            events,
            k,
        ),
{
    on_course_so_far(cmd, project, rules, states, events, outs, k, m);
    manifest_stays_that_of_the_package(cmd, project, rules, states, events, outs, k);
    let one = d.manifest.dependencies@[j];
}

/// Whether a list of indices has one with that name.
pub open spec fn has_named(indices: Seq<Index>, name: Seq<char>) -> bool {
    exists|i: int| 0 <= i < indices.len() && (#[trigger] indices[i]).name@ == name
}

/// A dependency is refused if and only if it names an index that the manifest does not have,
/// of the kind of the dependency, or is on a path; which of them, is told.
pub proof fn unreachable_dependencies_are_refused(
    cmd: PublishCommand,
    project: Project,
    rules: Rules,
    d: Draft,
    i: usize,
    out: PublishStep,
)
    requires
        is_step(
            cmd,
            project,
            rules,
            PublishState::Dependencies(d, i),
            PublishEvent::Proceed,
            out,
        ),
    ensures
        i >= d.manifest.dependencies@.len() ==> out.state == PublishState::Summary(d),
        i < d.manifest.dependencies@.len() ==> match d.manifest.dependencies@[i as int].specifier {
            DependencySpecifiers::Pesde { name, version, index, target } => if has_named(
                d.manifest.indices@,
                index@,
            ) {
                out.state is Dependencies
            } else {
                out.action == PublishAction::Done(
                    Err::<(), PublishError>(PublishError::IndexNotFound(index)),
                )
            },
            DependencySpecifiers::Wally { package, index } => if has_named(
                d.manifest.wally_indices@,
                index@,
            ) {
                out.state is Dependencies
            } else {
                out.action == PublishAction::Done(
                    Err::<(), PublishError>(PublishError::WallyIndexNotFound(index)),
                )
            },
            DependencySpecifiers::Git(_) => out.state is Dependencies,
            DependencySpecifiers::Workspace { .. } => out.action == PublishAction::ResolveWorkspace(
                i,
            ) && out.state == PublishState::AwaitWorkspace(d, i),
            DependencySpecifiers::Path(_) => out.action == PublishAction::Done(
                Err::<(), PublishError>(PublishError::PathDependency),
            ),
        },
{
    if i < d.manifest.dependencies@.len() {
        match d.manifest.dependencies@[i as int].specifier {
            DependencySpecifiers::Pesde { name, version, index, target } => {
                lemma_named(d.manifest.indices@, index@);
                if index_of_key(d.manifest.indices@, index@) < d.manifest.indices@.len() {
                    let n = index_of_key(d.manifest.indices@, index@) as int;
                    assert(d.manifest.indices@[n].name@ == index@);
                }
            },
            DependencySpecifiers::Wally { package, index } => {
                lemma_named(d.manifest.wally_indices@, index@);
                if index_of_key(d.manifest.wally_indices@, index@)
                    < d.manifest.wally_indices@.len() {
                    let n = index_of_key(d.manifest.wally_indices@, index@) as int;
                    assert(d.manifest.wally_indices@[n].name@ == index@);
                }
            },
            _ => {},
        }
    }
}

/// Of the workspace members that a dependency can stand for, the last one, which has the
/// highest version, is read. It takes a member, and a workspace.
pub proof fn highest_member_is_read(
    cmd: PublishCommand,
    project: Project,
    rules: Rules,
    d: Draft,
    i: usize,
    dirs: Vec<String>,
    out: PublishStep,
)
    requires
        is_step(
            cmd,
            project,
            rules,
            PublishState::AwaitWorkspace(d, i),
            PublishEvent::Workspace(Ok::<Vec<String>, Failure>(dirs)),
            out,
        ),
    ensures
        dirs@.len() == 0 ==> out.action == PublishAction::Done(
            Err::<(), PublishError>(PublishError::NoWorkspaceVersions),
        ),
        dirs@.len() > 0 && project.workspace_dir is None ==> out.action == PublishAction::Done(
            Err::<(), PublishError>(PublishError::NoWorkspaceDir),
        ),
        dirs@.len() > 0 && project.workspace_dir is Some ==> out.action
            == PublishAction::ReadMember(dirs@[dirs@.len() - 1]) && out.state
            == PublishState::AwaitMember(d, i),
{
}

/// A workspace dependency is refused if and only if its member has no default index, or the
/// sign before the version of the member is no requirement.
pub proof fn members_without_default_index_are_refused(
    cmd: PublishCommand,
    project: Project,
    rules: Rules,
    d: Draft,
    i: usize,
    out: PublishStep,
    outcome: MemberOutcome,
)
    requires
        awaits(PublishState::AwaitMember(d, i), PublishEvent::Member(outcome)),
        is_step(
            cmd,
            project,
            rules,
            PublishState::AwaitMember(d, i),
            PublishEvent::Member(outcome),
            out,
        ),
        outcome is Manifest,
    ensures
        ({
            let indices = outcome->Manifest_indices@;
            let readable = match d.manifest.dependencies@[i as int].specifier {
                DependencySpecifiers::Workspace { name, accepts, target } => match accepts {
                    VersionTypeOrReq::Sign(sign) => parsed_requirement(
                        sign@ + version_text(outcome->Manifest_version@),
                    ) is Ok,
                    _ => true,
                },
                _ => true,
            };
            &&& out.state is Dependencies <==> readable && has_named(indices, "default"@)
            &&& !readable ==> (out.action matches PublishAction::Done(
                Err(PublishError::InvalidVersion { .. }),
            ))
            &&& readable && !has_named(indices, "default"@) ==> out.action == PublishAction::Done(
                Err::<(), PublishError>(PublishError::NoDefaultIndex),
            )
        }),
{
    let indices = outcome->Manifest_indices@;
    lemma_named(indices, "default"@);
    let n = index_of_key(indices, "default"@) as int;
    if n < indices.len() {
        assert(indices[n].name@ == "default"@);
    }
}

} // verus!
