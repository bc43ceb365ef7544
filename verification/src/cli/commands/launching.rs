//! What a run launches.

use super::root_search::is_run;
use super::run::{
    awaits, has_alias, is_direct_named, is_step, Members, Place, Reading, RootRead, RunAction,
    RunCommand, RunEvent, RunState, RunStep, Wanted,
};
use crate::engine::{Engines, Runtime, RuntimeKind};
use crate::failure::Failure;
use crate::keyed::{index_of_key, lemma_index_of_key, lemma_index_of_key_unique};
use crate::project::{GraphNode, Lockfile, Manifest, Project, Script, TargetKind};
use crate::search;
use crate::text;
use vstd::prelude::*;

verus! {

proof fn lemma_single_index(n: int, holds: spec_fn(int) -> bool, i: int)
    requires
        0 <= i < n,
        holds(i),
        forall|j: int| 0 <= j < n && j != i ==> !(#[trigger] holds(j)),
    ensures
        search::indices(n, holds) == seq![i],
{
    let found = search::indices(n, holds);
    search::lemma_indices(n, holds, i);
    search::lemma_indices_ascend(n, holds);
    assert(found.contains(i));
    assert forall|a: int| 0 <= a < found.len() implies found[a] == i by {
        search::lemma_indices(n, holds, found[a]);
        assert(found.contains(found[a]));
    }
    if found.len() > 1 {
        assert(found[0] < found[1]);
    }
    assert(found =~= seq![i]);
}

/// A package that is named is run if exactly one node of the graph has that name and is a
/// dependency of the manifest, of whatever type: that node. If there is none, the run fails
/// because the package is not found, and if there are two or more, because the name does
/// not tell which.
pub proof fn the_named_package_is_run(
    cmd: RunCommand,
    project: Project,
    engines: Engines,
    name: String,
    lockfile: Lockfile,
    out: RunStep,
)
    requires
        is_step(
            cmd,
            project,
            RunState::AwaitLockfile(engines, Wanted::Package(name)),
            RunEvent::Lockfile(Ok(Some(lockfile))),
            out,
        ),
    ensures
        forall|i: int|
            #![trigger lockfile.graph@[i]]
            0 <= i < lockfile.graph@.len() && lockfile.graph@[i].id.name@ == name@
                && lockfile.graph@[i].direct is Some && (forall|j: int|
                0 <= j < lockfile.graph@.len() && j != i ==> !((
                #[trigger] lockfile.graph@[j]).id.name@ == name@ && lockfile.graph@[j].direct
                    is Some)) ==> out.state == RunState::AwaitOwnTarget(engines, i as usize),
        (out.action matches RunAction::Fail(f) && f@ == seq!["package not found"@]) <==> forall|
            j: int,
        |
            0 <= j < lockfile.graph@.len() ==> !((#[trigger] lockfile.graph@[j]).id.name@ == name@
                && lockfile.graph@[j].direct is Some),
        forall|i: int, j: int|
            #![trigger lockfile.graph@[i], lockfile.graph@[j]]
            0 <= i < j < lockfile.graph@.len() && lockfile.graph@[i].id.name@ == name@
                && lockfile.graph@[i].direct is Some && lockfile.graph@[j].id.name@ == name@
                && lockfile.graph@[j].direct is Some ==> (out.action matches RunAction::Fail(f)
                && f@ == seq!["multiple versions found. use the package's alias instead."@]),
{
    let graph = lockfile.graph@;
    assert(lockfile.graph.len() == graph.len());
    let n = graph.len() as int;
    let holds = |i: int| is_direct_named(graph[i], name@);
    let found = search::indices(n, holds);
    reveal_strlit("package not found");
    reveal_strlit("multiple versions found. use the package's alias instead.");
    assert("package not found"@.len() == 17);
    assert("multiple versions found. use the package's alias instead."@.len() == 57);
    assert(seq!["package not found"@][0] != seq![
        "multiple versions found. use the package's alias instead."@,
    ][0]);
    search::lemma_indices_ascend(n, holds);
    assert forall|i: int| 0 <= i < n implies found.contains(i) == (#[trigger] graph[i].id.name@
        == name@ && graph[i].direct is Some) by {
        search::lemma_indices(n, holds, i);
        assert(holds(i) == (graph[i].id.name@ == name@ && graph[i].direct is Some));
    }
    assert forall|i: int|
        #![trigger lockfile.graph@[i]]
        0 <= i < n && graph[i].id.name@ == name@ && graph[i].direct is Some && (forall|j: int|
            0 <= j < n && j != i ==> !((#[trigger] graph[j]).id.name@ == name@ && graph[j].direct
                is Some)) implies out.state == RunState::AwaitOwnTarget(engines, i as usize) by {
        lemma_single_index(n, holds, i);
    }
    if found.len() == 0 {
        assert forall|j: int| 0 <= j < n implies !((#[trigger] graph[j]).id.name@ == name@
            && graph[j].direct is Some) by {
            assert(!found.contains(j));
        }
    } else {
        search::lemma_indices(n, holds, found[0]);
        assert(found.contains(found[0]));
        assert(holds(found[0]));
        assert(graph[found[0]].id.name@ == name@);
    }
    assert forall|i: int, j: int|
        #![trigger lockfile.graph@[i], lockfile.graph@[j]]
        0 <= i < j < n && graph[i].id.name@ == name@ && graph[i].direct is Some
            && graph[j].id.name@ == name@ && graph[j].direct is Some implies found.len() > 1 by {
        assert(found.contains(i));
        assert(found.contains(j));
    }
}

/// An alias stands for the first node of the graph that is a dependency of the manifest
/// under it; with no such node, or an outdated lockfile, of which the user is then warned,
/// it is taken for a script. A name of a package takes a lockfile that is up to date.
pub proof fn the_aliased_package_is_run(
    cmd: RunCommand,
    project: Project,
    engines: Engines,
    alias: String,
    read: Option<Lockfile>,
    out: RunStep,
)
    requires
        is_step(
            cmd,
            project,
            RunState::AwaitLockfile(engines, Wanted::Alias(alias)),
            RunEvent::Lockfile(Ok(read)),
            out,
        ),
    ensures
        out.warned <==> read is None,
        read is None ==> out.state == RunState::AwaitScripts(engines),
        read matches Some(lockfile) ==> {
            &&& forall|i: int|
                #![trigger lockfile.graph@[i]]
                0 <= i < lockfile.graph@.len() && (lockfile.graph@[i].direct matches Some(d)
                    && d.alias@ == alias@) && (forall|j: int|
                    0 <= j < i ==> !((#[trigger] lockfile.graph@[j]).direct matches Some(d)
                        && d.alias@ == alias@)) ==> out.state == RunState::AwaitOwnTarget(
                    engines,
                    i as usize,
                )
            &&& out.state == RunState::AwaitScripts(engines) <==> forall|j: int|
                0 <= j < lockfile.graph@.len() ==> !((#[trigger] lockfile.graph@[j]).direct
                    matches Some(d) && d.alias@ == alias@)
        },
{
    if let Some(lockfile) = read {
        let graph = lockfile.graph@;
        assert(lockfile.graph.len() == graph.len());
        let n = graph.len() as int;
        let holds = |i: int| has_alias(graph[i], alias@);
        search::lemma_first_index_bounds(n, holds);
        let found = search::first_index(n, holds);
        assert forall|i: int|
            #![trigger lockfile.graph@[i]]
            0 <= i < n && (graph[i].direct matches Some(d) && d.alias@ == alias@) && (forall|j: int|
                0 <= j < i ==> !((#[trigger] graph[j]).direct matches Some(d) && d.alias@
                    == alias@)) implies found == i by {
            assert(holds(i));
            assert forall|j: int| 0 <= j < i implies !(#[trigger] holds(j)) by {
                let node = graph[j];
            }
            search::lemma_first_index(n, holds, i);
        }
        if found < n {
            assert(holds(found));
            assert(graph[found].direct is Some);
        } else {
            assert forall|j: int| 0 <= j < n implies !((#[trigger] graph[j]).direct matches Some(d)
                && d.alias@ == alias@) by {
                assert(!holds(j));
            }
        }
    }
}

/// With an outdated lockfile, no package is run by its name.
pub proof fn names_take_an_up_to_date_lockfile(
    cmd: RunCommand,
    project: Project,
    engines: Engines,
    name: String,
    out: RunStep,
)
    requires
        is_step(
            cmd,
            project,
            RunState::AwaitLockfile(engines, Wanted::Package(name)),
            RunEvent::Lockfile(Ok(None)),
            out,
        ),
    ensures
        out.action matches RunAction::Fail(f) && f@ == seq![
            "outdated lockfile, please run the install command first"@,
        ],
        !out.warned,
{
}

/// The engines that a state has.
pub open spec fn engines_in(s: RunState) -> Option<Engines> {
    match s {
        RunState::AwaitReading(engines) => Some(engines),
        RunState::AwaitLockfile(engines, _) => Some(engines),
        RunState::AwaitOwnTarget(engines, _) => Some(engines),
        RunState::AwaitRefresh(engines, _, _) => Some(engines),
        RunState::AwaitTarget(engines, _) => Some(engines),
        RunState::AwaitScripts(engines) => Some(engines),
        RunState::AwaitPath(engines) => Some(engines),
        RunState::AwaitMembers(engines) => Some(engines),
        RunState::AwaitCollected(engines) => Some(engines),
        RunState::AwaitCanonical(engines, _, _) => Some(engines),
        RunState::AwaitManifestCheck(engines, _, _, _) => Some(engines),
        RunState::AwaitRoot(engines, _) => Some(engines),
        _ => None,
    }
}

proof fn known_so_far(
    cmd: RunCommand,
    project: Project,
    states: Seq<RunState>,
    events: Seq<RunEvent>,
    outs: Seq<RunStep>,
    k: int,
)
    requires
        is_run(cmd, project, states, events, outs),
        0 <= k <= events.len(),
    ensures
        states[k] == RunState::AwaitManifest <==> k == 0,
        states[k] matches RunState::AwaitEngines(m) ==> k == 1 && events[0] == RunEvent::Manifest(
            Ok::<Manifest, Failure>(m),
        ),
        states[k] is AwaitReading ==> k == 2,
        engines_in(states[k]) matches Some(engines) ==> k >= 2 && events[1] == RunEvent::Engines(
            Ok::<Engines, Failure>(engines),
        ) && events[0] is Manifest && cmd.package_or_script is Some,
        states[k] == RunState::AwaitScript ==> k >= 2 && (events[1] matches RunEvent::Engines(
            Ok(_),
        )) && cmd.package_or_script is Some,
    decreases k,
{
    if k > 0 {
        known_so_far(cmd, project, states, events, outs, k - 1);
        let first = events[0];
        let e = events[k - 1];
        assert(is_step(cmd, project, states[k - 1], e, outs[k - 1]));
    }
}

/// Whether the node is what the user named: the only dependency of the manifest with that
/// name, or the first one under that alias.
pub open spec fn is_meant(graph: Seq<GraphNode>, reading: Reading, node: int) -> bool {
    &&& 0 <= node < graph.len()
    &&& match reading {
        Reading::Package(name) => {
            &&& graph[node].id.name@ == name@
            &&& graph[node].direct is Some
            &&& forall|j: int|
                0 <= j < graph.len() && j != node ==> !((#[trigger] graph[j]).id.name@ == name@
                    && graph[j].direct is Some)
        },
        Reading::Alias(alias) => {
            &&& graph[node].direct matches Some(d) && d.alias@ == alias@
            &&& forall|j: int|
                0 <= j < node ==> !((#[trigger] graph[j]).direct matches Some(d) && d.alias@
                    == alias@)
        },
        Reading::Neither => false,
    }
}

proof fn lemma_meant(
    cmd: RunCommand,
    project: Project,
    engines: Engines,
    wanted: Wanted,
    lockfile: Lockfile,
    out: RunStep,
    node: usize,
)
    requires
        is_step(
            cmd,
            project,
            RunState::AwaitLockfile(engines, wanted),
            RunEvent::Lockfile(Ok(Some(lockfile))),
            out,
        ),
        out.state == RunState::AwaitOwnTarget(engines, node),
    ensures
        is_meant(
            lockfile.graph@,
            match wanted {
                Wanted::Package(name) => Reading::Package(name),
                Wanted::Alias(alias) => Reading::Alias(alias),
            },
            node as int,
        ),
{
    let graph = lockfile.graph@;
    assert(lockfile.graph.len() == graph.len());
    let n = graph.len() as int;
    match wanted {
        Wanted::Package(name) => {
            let holds = |i: int| is_direct_named(graph[i], name@);
            let found = search::indices(n, holds);
            search::lemma_indices_ascend(n, holds);
            search::lemma_indices(n, holds, found[0]);
            assert(found.contains(found[0]));
            assert(holds(found[0]));
            assert forall|j: int| 0 <= j < n && j != node implies !((
            #[trigger] graph[j]).id.name@ == name@ && graph[j].direct is Some) by {
                search::lemma_indices(n, holds, j);
                if graph[j].id.name@ == name@ && graph[j].direct is Some {
                    assert(holds(j));
                    assert(found.contains(j));
                }
            }
        },
        Wanted::Alias(alias) => {
            let holds = |i: int| has_alias(graph[i], alias@);
            search::lemma_first_index_bounds(n, holds);
            let found = search::first_index(n, holds);
            assert(holds(found));
            assert forall|j: int| 0 <= j < found implies !((#[trigger] graph[j]).direct matches
                Some(d) && d.alias@ == alias@) by {
                assert(!holds(j));
            }
        },
    }
}

/// A package that is launched is the one that the user named: its source is refreshed, its
/// target is looked up where it is installed for the target of the manifest, and the file
/// that this target exports to be run is launched there.
pub proof fn packages_are_launched_as_named(
    cmd: RunCommand,
    project: Project,
    states: Seq<RunState>,
    events: Seq<RunEvent>,
    outs: Seq<RunStep>,
    k: int,
    runtime: Runtime,
    root: Place,
    file: Place,
)
    requires
        is_run(cmd, project, states, events, outs),
        0 <= k < events.len(),
        events[k] is Target,
        outs[k].action == (RunAction::Launch { runtime, root, file }),
    ensures
        k >= 6,
        events[k - 4] matches RunEvent::Reading(reading) && (events[k - 3] matches
            RunEvent::Lockfile(Ok(Some(lockfile))) && (events[k - 2] matches RunEvent::Manifest(
            Ok(m),
        ) && (events[k] matches RunEvent::Target(Ok((kind, Some(path)))) && (root matches
            Place::InContainer(node, from) && from == path && file == root && is_meant(
            lockfile.graph@,
            reading,
            node as int,
        ) && outs[k - 2].action == RunAction::Refresh(node) && outs[k - 1].action
            == RunAction::GetTarget(node, m.target.kind))))),
{
    let e = events[k];
    assert(is_step(cmd, project, states[k], e, outs[k]));
    known_so_far(cmd, project, states, events, outs, k);
    let e1 = events[k - 1];
    assert(is_step(cmd, project, states[k - 1], e1, outs[k - 1]));
    known_so_far(cmd, project, states, events, outs, k - 1);
    let e2 = events[k - 2];
    assert(is_step(cmd, project, states[k - 2], e2, outs[k - 2]));
    known_so_far(cmd, project, states, events, outs, k - 2);
    let e3 = events[k - 3];
    assert(is_step(cmd, project, states[k - 3], e3, outs[k - 3]));
    known_so_far(cmd, project, states, events, outs, k - 3);
    let e4 = events[k - 4];
    assert(is_step(cmd, project, states[k - 4], e4, outs[k - 4]));
    known_so_far(cmd, project, states, events, outs, k - 4);
    let engines = engines_in(states[k - 3])->0;
    let wanted = states[k - 3]->AwaitLockfile_1;
    let node = states[k]->AwaitTarget_1;
    let lockfile = e3->Lockfile_0->Ok_0->0;
    lemma_meant(cmd, project, engines, wanted, lockfile, outs[k - 3], node);
    assert(outs[k - 1].action == RunAction::GetTarget(node, (e2->Manifest_0->Ok_0).target.kind));
}

/// Whatever is launched is run by what there is: of a script of the manifest by what was
/// found for it, and of anything else by Lune, in the version that was found among the
/// engines at the start. Nothing for Roblox is launched.
pub proof fn launched_with_the_engines_of_the_project(
    cmd: RunCommand,
    project: Project,
    states: Seq<RunState>,
    events: Seq<RunEvent>,
    outs: Seq<RunStep>,
    k: int,
    runtime: Runtime,
    root: Place,
    file: Place,
)
    requires
        is_run(cmd, project, states, events, outs),
        0 <= k < events.len(),
        outs[k].action == (RunAction::Launch { runtime, root, file }),
    ensures
        events[k] matches RunEvent::Script(r) ==> (r matches Ok((by, _)) && by.kind
            == runtime.kind && by.version@ == runtime.version@),
        !(events[k] is Script) ==> runtime.kind == RuntimeKind::Lune && (events[1] matches
            RunEvent::Engines(Ok(engines)) && (engines.lune matches Some(v) && v@
            == runtime.version@)),
        events[k] matches RunEvent::Target(Ok((kind, _))) ==> kind != TargetKind::Roblox && kind
            != TargetKind::RobloxServer,
        events[k] matches RunEvent::Root(RootRead::Target(kind)) ==> kind != TargetKind::Roblox
            && kind != TargetKind::RobloxServer,
{
    let e = events[k];
    assert(is_step(cmd, project, states[k], e, outs[k]));
    known_so_far(cmd, project, states, events, outs, k);
}

/// With nothing named, the file that the manifest exports to be run is launched in the
/// package, unless nothing runs it; without such a file the run fails.
pub proof fn with_nothing_named(
    cmd: RunCommand,
    project: Project,
    states: Seq<RunState>,
    events: Seq<RunEvent>,
    outs: Seq<RunStep>,
    m: Manifest,
    engines: Engines,
)
    requires
        is_run(cmd, project, states, events, outs),
        events.len() >= 2,
        events[0] == RunEvent::Manifest(Ok::<Manifest, Failure>(m)),
        events[1] == RunEvent::Engines(Ok::<Engines, Failure>(engines)),
        cmd.package_or_script is None,
    ensures
        outs[1].state == RunState::Finished,
        m.target.bin_path is None ==> (outs[1].action matches RunAction::Fail(f) && f@ == seq![
            "no package or script specified, and no bin path found in manifest"@,
        ]),
        m.target.bin_path matches Some(path) ==> {
            &&& outs[1].action is Launch <==> engines.lune is Some && m.target.kind
                != TargetKind::Roblox && m.target.kind != TargetKind::RobloxServer
            &&& outs[1].action matches RunAction::Launch { runtime, root, file } ==> root
                == Place::PackageDir && file == Place::InPackage(path)
        },
{
    let e0 = events[0];
    assert(is_step(cmd, project, states[0], e0, outs[0]));
    let e1 = events[1];
    assert(is_step(cmd, project, states[1], e1, outs[1]));
}

/// With something named, just that is read as a name, and taken for what it was read as: a
/// package or an alias is looked up in the lockfile, and anything else is a script.
pub proof fn what_is_named_is_looked_up(
    cmd: RunCommand,
    project: Project,
    states: Seq<RunState>,
    events: Seq<RunEvent>,
    outs: Seq<RunStep>,
    reading: Reading,
)
    requires
        is_run(cmd, project, states, events, outs),
        events.len() >= 3,
        events[2] == RunEvent::Reading(reading),
    ensures
        cmd.package_or_script matches Some(name) && outs[1].action == RunAction::ReadName(name),
        match reading {
            Reading::Package(name) => outs[2].action == RunAction::ReadLockfile && (
            outs[2].state matches RunState::AwaitLockfile(_, wanted) && wanted == Wanted::Package(
                name,
            )),
            Reading::Alias(alias) => outs[2].action == RunAction::ReadLockfile && (
            outs[2].state matches RunState::AwaitLockfile(_, wanted) && wanted == Wanted::Alias(
                alias,
            )),
            Reading::Neither => outs[2].action == RunAction::ReadManifest && outs[2].state
                is AwaitScripts,
        },
{
    let e0 = events[0];
    assert(is_step(cmd, project, states[0], e0, outs[0]));
    let e1 = events[1];
    assert(is_step(cmd, project, states[1], e1, outs[1]));
    let e2 = events[2];
    assert(is_step(cmd, project, states[2], e2, outs[2]));
}

/// A name is that of a script if the manifest has one under just that name: the first such
/// script is run. With no such script, or no manifest, the name is that of a file, and the
/// run fails if there is none.
pub proof fn scripts_are_found_by_name(
    cmd: RunCommand,
    project: Project,
    engines: Engines,
    name: String,
    read: Result<Manifest, Failure>,
    out: RunStep,
)
    requires
        cmd.package_or_script == Some(name),
        is_step(
            cmd,
            project,
            RunState::AwaitScripts(engines),
            RunEvent::Manifest(read),
            out,
        ),
    ensures
        read is Err ==> out.action == RunAction::StatPath(name),
        read matches Ok(m) ==> {
            &&& forall|i: int|
                #![trigger m.scripts@[i]]
                0 <= i < m.scripts@.len() && m.scripts@[i].name@ == name@ && (forall|j: int|
                    0 <= j < i ==> (#[trigger] m.scripts@[j]).name@ != name@) ==> out.action
                    == RunAction::ParseScript(m.scripts@[i].path)
            &&& out.action == RunAction::StatPath(name) <==> forall|j: int|
                0 <= j < m.scripts@.len() ==> (#[trigger] m.scripts@[j]).name@ != name@
        },
{
    if let Ok(m) = read {
        lemma_index_of_key(m.scripts@, name@);
        let n = index_of_key(m.scripts@, name@) as int;
        assert forall|i: int|
            #![trigger m.scripts@[i]]
            0 <= i < m.scripts@.len() && m.scripts@[i].name@ == name@ && (forall|j: int|
                0 <= j < i ==> (#[trigger] m.scripts@[j]).name@ != name@) implies n == i by {
            lemma_index_of_key_unique(m.scripts@, name@, i as nat);
        }
        if n < m.scripts@.len() {
            assert(m.scripts@[n].name@ == name@);
        }
    }
}

/// A script is launched in the package, from the path that was found for it.
pub proof fn scripts_are_launched_in_the_package(
    cmd: RunCommand,
    project: Project,
    s: RunState,
    out: RunStep,
    by: Runtime,
    path: String,
)
    requires
        awaits(cmd, s, RunEvent::Script(Ok((by, path)))),
        is_step(cmd, project, s, RunEvent::Script(Ok((by, path))), out),
    ensures
        out.action matches RunAction::Launch { runtime, root, file } && runtime.kind == by.kind
            && runtime.version@ == by.version@ && root == Place::PackageDir && file
            == Place::InPackage(path),
{
}

/// A file that is named is launched, in the root that was found for it, by what runs the
/// target of that root; if there is none, the run fails without launching anything.
pub proof fn files_are_launched_as_named(
    cmd: RunCommand,
    project: Project,
    engines: Engines,
    found: Place,
    out: RunStep,
    name: String,
    kind: TargetKind,
)
    requires
        cmd.package_or_script == Some(name),
        is_step(
            cmd,
            project,
            RunState::AwaitRoot(engines, found),
            RunEvent::Root(RootRead::Target(kind)),
            out,
        ),
    ensures
        out.action is Launch <==> engines.lune is Some && kind != TargetKind::Roblox && kind
            != TargetKind::RobloxServer,
        !(out.action is Launch) ==> out.action is Fail,
        out.action matches RunAction::Launch { runtime, root, file } ==> root == found && file
            == Place::InPackage(name),
{
}

/// The members of a workspace are those that were found, if any could be named, and the
/// directory of the workspace itself: that of the package, unless the package is a member
/// of a workspace elsewhere.
pub proof fn members_are_looked_up_in_the_workspace(
    cmd: RunCommand,
    project: Project,
    s: RunState,
    members: Members,
    out: RunStep,
)
    requires
        awaits(cmd, s, RunEvent::Members(members)),
        is_step(cmd, project, s, RunEvent::Members(members), out),
    ensures
        out.action matches RunAction::CollectMembers { members: some, workspace } ==> some == (
        members is Found) && workspace == (match project.workspace_dir {
            Some(dir) => dir,
            None => project.package_dir,
        }),
        out.action is CollectMembers <==> !(members is Failed),
        out.action is Fail <==> members is Failed,
{
}

/// A path that is named and is not there fails the run.
pub proof fn missing_paths_fail(
    cmd: RunCommand,
    project: Project,
    s: RunState,
    exists: bool,
    shown: String,
    out: RunStep,
)
    requires
        awaits(cmd, s, RunEvent::Path { exists, shown }),
        is_step(cmd, project, s, (RunEvent::Path { exists, shown }), out),
    ensures
        out.action is Fail <==> !exists,
        out.action == RunAction::ListMembers <==> exists,
{
}

/// What is said of the work that the event tells has failed, where something is, and the
/// failure.
pub open spec fn failed_work(s: RunState, e: RunEvent) -> Option<(Option<Seq<char>>, Failure)> {
    match e {
        RunEvent::Manifest(Err(f)) => if s is AwaitScripts {
            None
        } else {
            Some((Some("failed to deserialize manifest"@), f))
        },
        RunEvent::Engines(Err(f)) => Some((None, f)),
        RunEvent::Lockfile(Err(f)) => Some((None, f)),
        RunEvent::Refreshed(Err(f)) => Some((Some("failed to refresh source"@), f)),
        RunEvent::Target(Err(f)) => Some((None, f)),
        RunEvent::Script(Err(f)) => Some((Some("failed to get script info"@), f)),
        RunEvent::Members(Members::Failed(f)) => Some(
            (Some("failed to get workspace members"@), f),
        ),
        RunEvent::Collected(Err(f)) => Some((Some("failed to collect workspace members"@), f)),
        RunEvent::Canonical(Err(f), _) => Some((Some("failed to canonicalize parent"@), f)),
        RunEvent::Root(RootRead::ReadFailed(f)) => Some(
            (Some("failed to read manifest at root"@), f),
        ),
        RunEvent::Root(RootRead::ParseFailed(f)) => Some(
            (Some("failed to deserialize manifest at root"@), f),
        ),
        _ => None,
    }
}

/// Work that fails ends a run with that failure, behind what is said of the work. Only that
/// the manifest cannot be read when its scripts are looked for does not.
pub proof fn failures_end_the_run(
    cmd: RunCommand,
    project: Project,
    s: RunState,
    e: RunEvent,
    out: RunStep,
)
    requires
        awaits(cmd, s, e),
        is_step(cmd, project, s, e, out),
        failed_work(s, e) is Some,
    ensures
        out.state == RunState::Finished,
        !out.warned,
        out.action matches RunAction::Fail(g) && (failed_work(s, e) matches Some((said, f))
            && match said {
            Some(t) => g@ == seq![t] + f@,
            None => g@ == f@,
        }),
{
}

/// A package without a file to be run cannot be run.
pub proof fn packages_need_something_to_run(
    cmd: RunCommand,
    project: Project,
    s: RunState,
    kind: TargetKind,
    out: RunStep,
)
    requires
        awaits(cmd, s, RunEvent::Target(Ok((kind, None)))),
        is_step(cmd, project, s, RunEvent::Target(Ok((kind, None))), out),
    ensures
        out.action matches RunAction::Fail(f) && f@ == seq!["package has no bin path"@],
{
}

/// The root that a file is run in is looked for from the file upwards: a place is tested for
/// a manifest if and only if it is one of the members, a member with a manifest is the root,
/// and from any other place the search goes on above it. Where there is nothing above, the
/// package is the root.
pub proof fn roots_are_searched_upwards(
    cmd: RunCommand,
    project: Project,
    s: RunState,
    e: RunEvent,
    out: RunStep,
)
    requires
        awaits(cmd, s, e),
        is_step(cmd, project, s, e, out),
    ensures
        e matches RunEvent::Collected(Ok(members)) ==> out.action == RunAction::Canonicalize(
            None,
        ) && (out.state matches RunState::AwaitCanonical(_, known, at) && known == members && at
            is None),
        e matches RunEvent::Canonical(Ok(path), above) ==> (s matches RunState::AwaitCanonical(
            _,
            members,
            _,
        ) && if exists|i: int| 0 <= i < members@.len() && (#[trigger] members@[i])@ == path@ {
            out.action == RunAction::StatManifest(path)
        } else {
            match above {
                Some(dir) => out.action == RunAction::Canonicalize(Some(dir)),
                None => out.action == RunAction::ReadRoot(Place::PackageDir),
            }
        }),
        e matches RunEvent::HasManifest(there) ==> (s matches RunState::AwaitManifestCheck(
            _,
            _,
            path,
            above,
        ) && if there {
            out.action == RunAction::ReadRoot(Place::At(path))
        } else {
            match above {
                Some(dir) => out.action == RunAction::Canonicalize(Some(dir)),
                None => out.action == RunAction::ReadRoot(Place::PackageDir),
            }
        }),
{
    if let RunState::AwaitCanonical(_, members, _) = s {
        if let RunEvent::Canonical(Ok(path), above) = e {
            let list = text::texts(members@);
            if list.contains(path@) {
                let i = choose|i: int| 0 <= i < list.len() && list[i] == path@;
                assert(members@[i]@ == path@);
            }
            if exists|i: int| 0 <= i < members@.len() && (#[trigger] members@[i])@ == path@ {
                let i = choose|i: int|
                    0 <= i < members@.len() && (#[trigger] members@[i])@ == path@;
                assert(list[i] == path@);
            }
        }
    }
}

/// Work that is done leads to the next piece of work: a package is refreshed and looked up for
/// the target of the manifest, and launched if there is something that runs its target.
pub proof fn work_follows_in_order(
    cmd: RunCommand,
    project: Project,
    s: RunState,
    e: RunEvent,
    out: RunStep,
)
    requires
        awaits(cmd, s, e),
        is_step(cmd, project, s, e, out),
    ensures
        e matches RunEvent::Manifest(Ok(m)) ==> match s {
            RunState::AwaitManifest => out.action == RunAction::FindEngines && out.state
                == RunState::AwaitEngines(m),
            RunState::AwaitOwnTarget(engines, node) => out.action == RunAction::Refresh(node)
                && out.state == RunState::AwaitRefresh(engines, node, m.target.kind),
            _ => s is AwaitScripts,
        },
        e matches RunEvent::Refreshed(Ok(_)) ==> (s matches RunState::AwaitRefresh(
            engines,
            node,
            kind,
        ) && out.action == RunAction::GetTarget(node, kind) && out.state
            == RunState::AwaitTarget(engines, node)),
        e matches RunEvent::Target(Ok((kind, Some(path)))) ==> (s matches RunState::AwaitTarget(
            engines,
            node,
        ) && (out.action is Launch <==> engines.lune is Some && kind != TargetKind::Roblox && kind
            != TargetKind::RobloxServer) && (out.action is Launch || out.action is Fail)),
        e matches RunEvent::Engines(Ok(engines)) ==> (cmd.package_or_script matches Some(name)
            ==> out.action == RunAction::ReadName(name) && out.state == RunState::AwaitReading(
            engines,
        )),
{
}

} // verus!
