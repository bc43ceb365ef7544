//! Which package an execution runs.

use super::execute::{
    awaits, found_of, is_first_step, is_step, ExecuteAction, ExecuteCommand, ExecuteEvent,
    ExecuteState, ExecuteStep, Found, IndexEntry, Query, RunFailure,
};
use crate::engine::{Engines, Runtime, RuntimeKind};
use crate::failure::Failure;
use crate::git_url::GitUrl;
use crate::keyed::{index_of_key, lemma_index_of_key, lemma_index_of_key_unique};
use crate::project::{token_pairs, Project, TargetKind};
use vstd::prelude::*;

verus! {

/// Whatever query an execution sends to the index asks for the package that the user named,
/// in the versions that the user gave with it, if any were given, and in any version only
/// if none were; for the target that the user asked for and those that run on it.
pub proof fn queries_ask_for_what_the_user_gave(
    cmd: ExecuteCommand,
    project: Project,
    s: ExecuteState,
    e: ExecuteEvent,
    out: ExecuteStep,
    q: Query,
)
    requires
        awaits(s, e),
        is_step(cmd, project, s, e, out),
        out.action == ExecuteAction::Resolve(q),
    ensures
        cmd.package.1 matches Some(r) ==> q.version@ == r@,
        cmd.package.1 is None ==> q.version@ == "*"@,
        q.name@ == cmd.package.0@,
        q.target == cmd.target,
        q.loose_target,
        q.index@ == "default"@,
{
}

/// Once the index is refreshed, it is asked for the package.
pub proof fn refreshed_indices_are_asked(
    cmd: ExecuteCommand,
    project: Project,
    s: ExecuteState,
    out: ExecuteStep,
)
    requires
        awaits(s, ExecuteEvent::Refreshed(Ok(()))),
        is_step(cmd, project, s, ExecuteEvent::Refreshed(Ok(())), out),
    ensures
        out.action is Resolve,
{
}

/// An execution for a target that exports nothing to be run fails at once. Otherwise the
/// index that the user gave is refreshed, and only if none was given, the configuration
/// is asked for one.
pub proof fn given_index_is_refreshed(
    cmd: ExecuteCommand,
    has_bin: bool,
    shown: Seq<char>,
    out: ExecuteStep,
)
    requires
        is_first_step(cmd, has_bin, shown, out),
    ensures
        out.action is Fail <==> !has_bin,
        out.action matches ExecuteAction::Fail(f) ==> f@ == seq![
            shown + " doesn't support bin exports!"@,
        ],
        has_bin ==> match cmd.index {
            Some(index) => out.action matches ExecuteAction::Refresh(u) && u.text@ == index.text@
                && u.shown@ == index.shown@,
            None => out.action == ExecuteAction::ReadConfig,
        },
{
}

/// The index of the configuration is refreshed where there is one, and without any the
/// execution fails.
pub proof fn configured_index_is_refreshed(
    cmd: ExecuteCommand,
    project: Project,
    s: ExecuteState,
    out: ExecuteStep,
    configured: Option<GitUrl>,
)
    requires
        awaits(s, ExecuteEvent::Config(configured)),
        is_step(cmd, project, s, ExecuteEvent::Config(configured), out),
    ensures
        match configured {
            Some(index) => out.action matches ExecuteAction::Refresh(u) && u.text@ == index.text@
                && u.shown@ == index.shown@,
            None => out.action matches ExecuteAction::Fail(f) && f@ == seq!["no index specified"@],
        },
{
}

/// An execution from its start on: the first step, the states that it passed through, and
/// the event and the outcome of each step.
pub open spec fn is_run(
    cmd: ExecuteCommand,
    project: Project,
    first: ExecuteStep,
    states: Seq<ExecuteState>,
    events: Seq<ExecuteEvent>,
    outs: Seq<ExecuteStep>,
) -> bool {
    &&& states.len() == events.len() + 1
    &&& outs.len() == events.len()
    &&& exists|has_bin: bool, shown: Seq<char>| #[trigger]
        is_first_step(cmd, has_bin, shown, first)
    &&& states[0] == first.state
    &&& forall|i: int|
        #![trigger events[i]]
        0 <= i < events.len() ==> {
            &&& awaits(states[i], events[i])
            &&& is_step(cmd, project, states[i], events[i], outs[i])
            &&& states[i + 1] == outs[i].state
        }
}

/// Whether the entry with that number is the first one of that version.
pub open spec fn first_of_version(entries: Seq<IndexEntry>, version: Seq<char>, i: int) -> bool {
    &&& 0 <= i < entries.len()
    &&& entries[i].version_id@ == version
    &&& forall|j: int| 0 <= j < i ==> (#[trigger] entries[j]).version_id@ != version
}

/// If the index has versions for the query, the last one, which is the highest, is used;
/// if it has none, the user is told for what there is none.
pub proof fn highest_version_is_used(
    cmd: ExecuteCommand,
    project: Project,
    s: ExecuteState,
    out: ExecuteStep,
    versions: Vec<String>,
)
    requires
        awaits(s, ExecuteEvent::Resolved(Ok(versions))),
        is_step(cmd, project, s, ExecuteEvent::Resolved(Ok(versions)), out),
    ensures
        versions@.len() > 0 ==> out.state == ExecuteState::AwaitTempDir(
            versions@[versions@.len() - 1],
        ) && out.action == ExecuteAction::MakeTempDir,
        versions@.len() == 0 ==> (out.action matches ExecuteAction::Fail(f) && f@ == seq![
            "no compatible package could be found for "@ + cmd.package.0@ + "@"@ + (
            match cmd.package.1 {
                Some(r) => r@,
                None => "*"@,
            }),
        ]),
{
}

/// A package is executed in a project of its own: in the temporary directory, as no member
/// of a workspace, with the data, the stored files and the tokens of the project that it is
/// executed from.
pub proof fn executed_in_a_project_of_its_own(
    cmd: ExecuteCommand,
    project: Project,
    s: ExecuteState,
    out: ExecuteStep,
    dir: String,
)
    requires
        awaits(s, ExecuteEvent::TempDir(Ok(dir))),
        is_step(cmd, project, s, ExecuteEvent::TempDir(Ok(dir)), out),
    ensures
        out.action matches ExecuteAction::ReadIndexFile(name) && name@ == cmd.package.0@,
        out.state matches ExecuteState::AwaitIndexFile(_, own) && own.package_dir@ == dir@
            && own.workspace_dir is None && own.data_dir@ == project.data_dir@ && own.cas_dir@
            == project.cas_dir@ && own.auth_config.tokens@.len()
            == project.auth_config.tokens@.len() && forall|i: int|
            0 <= i < project.auth_config.tokens@.len() ==> {
                let t = #[trigger] project.auth_config.tokens@[i];
                let u = own.auth_config.tokens@[i];
                u.token@ == t.token@ && u.url.text@ == t.url.text@ && u.url.shown@ == t.url.shown@
            },
{
    let own = out.state->AwaitIndexFile_1;
    let a = token_pairs(own.auth_config.tokens@);
    let b = token_pairs(project.auth_config.tokens@);
    assert(a.len() == own.auth_config.tokens@.len());
    assert(b.len() == project.auth_config.tokens@.len());
    assert forall|i: int| 0 <= i < project.auth_config.tokens@.len() implies {
        let t = #[trigger] project.auth_config.tokens@[i];
        let u = own.auth_config.tokens@[i];
        u.token@ == t.token@ && u.url.text@ == t.url.text@ && u.url.shown@ == t.url.shown@
    } by {
        assert(a[i] == b[i]);
    }
}

/// Of the file that the index has for the package, the first entry of the version is used.
/// The execution goes on if and only if there is one and it exports something to be run.
pub proof fn entry_of_the_version_is_used(
    cmd: ExecuteCommand,
    project: Project,
    version: String,
    own: Project,
    entries: Vec<IndexEntry>,
    out: ExecuteStep,
)
    requires
        is_step(
            cmd,
            project,
            ExecuteState::AwaitIndexFile(version, own),
            ExecuteEvent::IndexFile(Ok(Some(entries))),
            out,
        ),
    ensures
        forall|i: int| #[trigger]
            first_of_version(entries@, version@, i) ==> match entries@[i].bin_path {
                Some(path) => out.action == ExecuteAction::Download && out.state
                    == ExecuteState::AwaitDownload(
                    Found {
                        id: out.state->AwaitDownload_0.id,
                        project: own,
                        kind: entries@[i].kind,
                        bin_path: path,
                    },
                ),
                None => out.action matches ExecuteAction::Fail(f) && f@ == seq![
                    "package has no binary export"@,
                ],
            },
        out.state matches ExecuteState::AwaitDownload(found) ==> found.id.name@ == cmd.package.0@
            && found.id.version_id@ == version@ && exists|i: int| #[trigger]
            first_of_version(entries@, version@, i),
        (forall|i: int|
            0 <= i < entries@.len() ==> (#[trigger] entries@[i]).version_id@ != version@) ==> (
        out.action matches ExecuteAction::Fail(f) && f@ == seq![
            "version id not present in index file"@,
        ]),
{
    lemma_index_of_key(entries@, version@);
    let n = index_of_key(entries@, version@) as int;
    if n < entries@.len() {
        assert(entries@[n].version_id@ == version@);
        assert(first_of_version(entries@, version@, n));
    }
    assert forall|i: int| #[trigger] first_of_version(entries@, version@, i) implies i == n by {
        lemma_index_of_key_unique(entries@, version@, i as nat);
    }
}

/// What is run is the package that the user named, in the highest version that the index
/// had for the query: the file that the entry of that version exports, by Lune in the
/// version that was found among the engines. The user was told of just that package.
pub proof fn asked_package_is_run(
    cmd: ExecuteCommand,
    project: Project,
    first: ExecuteStep,
    states: Seq<ExecuteState>,
    events: Seq<ExecuteEvent>,
    outs: Seq<ExecuteStep>,
    k: int,
    runtime: Runtime,
    bin_path: String,
)
    requires
        is_run(cmd, project, first, states, events, outs),
        0 <= k < events.len(),
        outs[k].action == (ExecuteAction::Run { runtime, bin_path }),
    ensures
        k >= 9,
        events[k] matches ExecuteEvent::Engines(Ok(engines)) && runtime.kind == RuntimeKind::Lune
            && (engines.lune matches Some(v) && v@ == runtime.version@),
        events[k - 8] matches ExecuteEvent::Resolved(Ok(versions)) && versions@.len() > 0 && (
        events[k - 6] matches ExecuteEvent::IndexFile(Ok(Some(entries))) && exists|i: int|
            {
                &&& #[trigger] first_of_version(entries@, versions@[versions@.len() - 1]@, i)
                &&& entries@[i].bin_path == Some(bin_path)
                &&& entries@[i].kind != TargetKind::Roblox
                &&& entries@[i].kind != TargetKind::RobloxServer
            }) && (outs[k - 3].used matches Some(t) && t@ == "using "@ + (cmd.package.0@ + "@"@
            + versions@[versions@.len() - 1]@)),
        outs[k - 9].action matches ExecuteAction::Resolve(q) && q.name@ == cmd.package.0@,
        outs[k - 7].action matches ExecuteAction::ReadIndexFile(name) && name@ == cmd.package.0@,
{
    let chosen = choose|c: (bool, Seq<char>)| #[trigger] is_first_step(cmd, c.0, c.1, first);
    let e = events[k];
    assert(is_step(cmd, project, states[k], e, outs[k]));
    assert(states[k] is AwaitEngines);
    assert(first.state is AwaitRefresh || first.state is AwaitConfig || first.state is Finished);
    let e1 = events[k - 1];
    assert(is_step(cmd, project, states[k - 1], e1, outs[k - 1]));
    assert(states[k - 1] is AwaitManifest);
    let e2 = events[k - 2];
    assert(is_step(cmd, project, states[k - 2], e2, outs[k - 2]));
    assert(states[k - 2] is AwaitLinked);
    let e3 = events[k - 3];
    assert(is_step(cmd, project, states[k - 3], e3, outs[k - 3]));
    assert(states[k - 3] is AwaitGraph);
    let e4 = events[k - 4];
    assert(is_step(cmd, project, states[k - 4], e4, outs[k - 4]));
    assert(states[k - 4] is AwaitWritten);
    let e5 = events[k - 5];
    assert(is_step(cmd, project, states[k - 5], e5, outs[k - 5]));
    assert(states[k - 5] is AwaitDownload);
    let e6 = events[k - 6];
    assert(is_step(cmd, project, states[k - 6], e6, outs[k - 6]));
    assert(states[k - 6] is AwaitIndexFile);
    let e7 = events[k - 7];
    assert(is_step(cmd, project, states[k - 7], e7, outs[k - 7]));
    assert(states[k - 7] is AwaitTempDir);
    let e8 = events[k - 8];
    assert(is_step(cmd, project, states[k - 8], e8, outs[k - 8]));
    assert(states[k - 8] is AwaitResolved);
    let e9 = events[k - 9];
    assert(is_step(cmd, project, states[k - 9], e9, outs[k - 9]));
    let version = states[k - 6]->AwaitIndexFile_0;
    let own = states[k - 6]->AwaitIndexFile_1;
    let entries = e6->IndexFile_0->Ok_0->0;
    entry_of_the_version_is_used(cmd, project, version, own, entries, outs[k - 6]);
    let found = found_of(states[k])->0;
    let i = choose|i: int| #[trigger] first_of_version(entries@, version@, i);
    assert(first_of_version(entries@, version@, i));
}

/// An execution ends with the exit code of the package; with one if it has none.
pub proof fn exit_code_is_passed_on(
    cmd: ExecuteCommand,
    project: Project,
    s: ExecuteState,
    out: ExecuteStep,
    r: Result<Option<i32>, RunFailure>,
)
    requires
        awaits(s, ExecuteEvent::Ran(r)),
        is_step(cmd, project, s, ExecuteEvent::Ran(r), out),
    ensures
        r matches Ok(Some(code)) ==> out.action == ExecuteAction::Exit(code),
        r matches Ok(None) ==> out.action == ExecuteAction::Exit(1),
        r is Err ==> out.action is Fail,
{
}

/// Work that fails ends the execution with an error.
pub proof fn failures_end_the_execution(
    cmd: ExecuteCommand,
    project: Project,
    s: ExecuteState,
    e: ExecuteEvent,
    out: ExecuteStep,
)
    requires
        awaits(s, e),
        is_step(cmd, project, s, e, out),
        match e {
            ExecuteEvent::Config(r) => r is None,
            ExecuteEvent::Refreshed(r) => r is Err,
            ExecuteEvent::Resolved(r) => r is Err,
            ExecuteEvent::TempDir(r) => r is Err,
            ExecuteEvent::IndexFile(r) => r is Err || r->Ok_0 is None,
            ExecuteEvent::Downloaded(r) => r is Err,
            ExecuteEvent::Written(r) => r is Err,
            ExecuteEvent::Graph(r) => r is Err,
            ExecuteEvent::Linked(r) => r is Err,
            ExecuteEvent::Manifest(r) => r is Err,
            ExecuteEvent::Engines(r) => r is Err,
            ExecuteEvent::Ran(r) => r is Err,
        },
    ensures
        out.state == ExecuteState::Finished,
        out.action is Fail,
        out.used is None,
{
}

/// Work that is done leads to the next piece of work, on the same package, and the package is
/// run once all of it is done, if there is something that runs it.
pub proof fn work_follows_in_order(
    cmd: ExecuteCommand,
    project: Project,
    s: ExecuteState,
    e: ExecuteEvent,
    out: ExecuteStep,
)
    requires
        awaits(s, e),
        is_step(cmd, project, s, e, out),
    ensures
        e matches ExecuteEvent::Downloaded(Ok(_)) ==> out.action == ExecuteAction::WritePackage,
        e matches ExecuteEvent::Written(Ok(_)) ==> out.action == ExecuteAction::BuildGraph,
        e matches ExecuteEvent::Graph(Ok(_)) ==> out.action == ExecuteAction::DownloadAndLink,
        e matches ExecuteEvent::Linked(Ok(_)) ==> out.action == ExecuteAction::ReadManifest,
        e matches ExecuteEvent::Manifest(Ok(_)) ==> out.action == ExecuteAction::FindEngines,
        e matches ExecuteEvent::Engines(Ok(engines)) ==> (found_of(s) matches Some(found) && (
        out.action is Run <==> engines.lune is Some && found.kind != TargetKind::Roblox
            && found.kind != TargetKind::RobloxServer) && (out.action is Run || out.action
            is Fail)),
        out.used is Some <==> e matches ExecuteEvent::Graph(Ok(_)),
        found_of(s) is Some && found_of(out.state) is Some ==> found_of(out.state) == found_of(s),
{
}

/// What is said of the work that the event tells has failed, where something is, and the
/// failure.
pub open spec fn failed_work(e: ExecuteEvent) -> Option<(Option<Seq<char>>, Failure)> {
    match e {
        ExecuteEvent::Refreshed(Err(f)) => Some((Some("failed to refresh source"@), f)),
        ExecuteEvent::Resolved(Err(f)) => Some((Some("failed to resolve package"@), f)),
        ExecuteEvent::TempDir(Err(f)) => Some((Some("failed to create temporary directory"@), f)),
        ExecuteEvent::IndexFile(Err(f)) => Some((Some("failed to read package index file"@), f)),
        ExecuteEvent::Downloaded(Err(f)) => Some((Some("failed to download package"@), f)),
        ExecuteEvent::Written(Err(f)) => Some((Some("failed to write package contents"@), f)),
        ExecuteEvent::Graph(Err(f)) => Some((Some("failed to build dependency graph"@), f)),
        ExecuteEvent::Linked(Err(f)) => Some(
            (Some("failed to download and link dependencies"@), f),
        ),
        ExecuteEvent::Manifest(Err(f)) => Some((Some("failed to deserialize manifest"@), f)),
        ExecuteEvent::Engines(Err(f)) => Some((None, f)),
        ExecuteEvent::Ran(Err(RunFailure::CreateFile(f))) => Some(
            (Some("failed to create tempfile"@), f),
        ),
        ExecuteEvent::Ran(Err(RunFailure::WriteFile(f))) => Some(
            (Some("failed to write to tempfile"@), f),
        ),
        ExecuteEvent::Ran(Err(RunFailure::CurrentDir(f))) => Some(
            (Some("failed to get current directory"@), f),
        ),
        ExecuteEvent::Ran(Err(RunFailure::Run(f))) => Some((Some("failed to run script"@), f)),
        _ => None,
    }
}

/// Work that fails ends an execution with that failure, behind what is said of the work.
pub proof fn failures_are_told_with_their_work(
    cmd: ExecuteCommand,
    project: Project,
    s: ExecuteState,
    e: ExecuteEvent,
    out: ExecuteStep,
)
    requires
        awaits(s, e),
        is_step(cmd, project, s, e, out),
        failed_work(e) is Some,
    ensures
        out.action matches ExecuteAction::Fail(g) && (failed_work(e) matches Some((said, f))
            && match said {
            Some(t) => g@ == seq![t] + f@,
            None => g@ == f@,
        }),
{
}

/// A package that the index has no file for does not exist on it.
pub proof fn packages_must_be_on_the_index(
    cmd: ExecuteCommand,
    project: Project,
    s: ExecuteState,
    out: ExecuteStep,
)
    requires
        awaits(s, ExecuteEvent::IndexFile(Ok(None))),
        is_step(cmd, project, s, ExecuteEvent::IndexFile(Ok(None)), out),
    ensures
        out.action matches ExecuteAction::Fail(f) && f@ == seq![
            "package doesn't exist on the index"@,
        ],
{
}

} // verus!
