//! Running a package, a script of the manifest, or a file.

use crate::cli::engines::{compatible_runtime, runtime_for};
use crate::engine::{engine_of, Engines, Runtime, RuntimeKind};
use crate::failure::{caused, plain, Failure};
use crate::keyed::{entry, find};
use crate::project::{GraphNode, Lockfile, Manifest, Project, TargetKind};
use crate::search;
use crate::text;
use crate::version::VersionParts;
use vstd::prelude::*;

verus! {

/// Runs a package, a script or a file. The arguments for the script stay with
/// the caller.
#[derive(Debug)]
pub struct RunCommand {
    /// The package name, script name, or path to a script to run.
    pub package_or_script: Option<String>,
}

/// What the user named, as far as its form tells.
#[derive(Debug)]
pub enum Reading {
    /// The name of a package.
    Package(String),
    /// No name of a package, but one that a dependency can have.
    Alias(String),
    Neither,
}

/// What is looked for among the packages that are installed.
#[derive(Debug)]
pub enum Wanted {
    Package(String),
    Alias(String),
}

/// A place in the file system.
#[derive(Debug)]
pub enum Place {
    /// The directory of the package that commands are run in.
    PackageDir,
    /// This path, relative to that directory.
    InPackage(String),
    /// This path, relative to where the package with this index is installed.
    InContainer(usize, String),
    /// This path.
    At(String),
}

/// How finding the members of the workspace went.
#[derive(Debug)]
pub enum Members {
    Found,
    /// There is no manifest that could name any.
    NoManifest,
    Failed(Failure),
}

/// How reading the manifest of the root went.
#[derive(Debug)]
pub enum RootRead {
    ReadFailed(Failure),
    ParseFailed(Failure),
    Target(TargetKind),
}

/// Where a run stands.
#[derive(Debug)]
pub enum RunState {
    AwaitManifest,
    AwaitEngines(Manifest),
    AwaitReading(Engines),
    AwaitLockfile(Engines, Wanted),
    /// The package of the graph with this index is run.
    AwaitOwnTarget(Engines, usize),
    AwaitRefresh(Engines, usize, TargetKind),
    AwaitTarget(Engines, usize),
    AwaitScripts(Engines),
    AwaitScript,
    AwaitPath(Engines),
    AwaitMembers(Engines),
    AwaitCollected(Engines),
    /// The members of the workspace, and the path that is looked at: the file
    /// itself, or a directory above it.
    AwaitCanonical(Engines, Vec<String>, Option<String>),
    /// A member that the file lies in, and the directory above it.
    AwaitManifestCheck(Engines, Vec<String>, String, Option<String>),
    AwaitRoot(Engines, Place),
    Finished,
}

/// What is to be done next.
#[derive(Debug)]
pub enum RunAction {
    ReadManifest,
    FindEngines,
    /// See what this text can be the name of.
    ReadName(String),
    /// Read the lockfile, and see whether it is up to date.
    ReadLockfile,
    /// Refresh the source of the package with this index.
    Refresh(usize),
    /// Look up the target of the package with this index, which is installed
    /// for that target.
    GetTarget(usize, TargetKind),
    /// Find out how to run this script.
    ParseScript(String),
    /// See whether there is anything at this path of the package.
    StatPath(String),
    ListMembers,
    /// Make the paths of the members, if they were found, and of this directory
    /// canonical.
    CollectMembers { members: bool, workspace: String },
    /// Make the path canonical: this one, or that of the file.
    Canonicalize(Option<String>),
    /// See whether there is a manifest in this directory.
    StatManifest(String),
    ReadRoot(Place),
    /// Run the file, and end with its exit code.
    Launch { runtime: Runtime, root: Place, file: Place },
    Fail(Failure),
}

/// What came of the work.
#[derive(Debug)]
pub enum RunEvent {
    Manifest(Result<Manifest, Failure>),
    Engines(Result<Engines, Failure>),
    Reading(Reading),
    Lockfile(Result<Option<Lockfile>, Failure>),
    Refreshed(Result<(), Failure>),
    /// The target's kind and the path that it exports to be run.
    Target(Result<(TargetKind, Option<String>), Failure>),
    /// What runs the script, and its path.
    Script(Result<(Runtime, String), Failure>),
    /// Whether there is anything at the path, and how it is shown.
    Path { exists: bool, shown: String },
    Members(Members),
    Collected(Result<Vec<String>, Failure>),
    /// The canonical path, and the directory above the one that was looked at.
    Canonical(Result<String, Failure>, Option<String>),
    HasManifest(bool),
    Root(RootRead),
}

/// The outcome of a step.
#[derive(Debug)]
pub struct RunStep {
    pub state: RunState,
    /// Whether the user is warned that the lockfile is outdated.
    pub warned: bool,
    pub action: RunAction,
}

/// What the user is told when an alias cannot be looked up.
pub const OUTDATED_FOR_ALIAS: &'static str =
    "outdated lockfile, please run the install command first to use an alias";

/// The step leads to that state and action.
pub open spec fn goes(out: RunStep, state: RunState, action: RunAction) -> bool {
    out == (RunStep { state, warned: false, action })
}

/// The step ends the run with that error.
pub open spec fn fails(out: RunStep, e: Seq<Seq<char>>) -> bool {
    &&& !out.warned
    &&& out.state == RunState::Finished
    &&& out.action matches RunAction::Fail(f)
    &&& f@ == e
}

/// The step runs the file.
pub open spec fn launches(
    out: RunStep,
    runtime: (RuntimeKind, VersionParts),
    root: Place,
    file: Place,
) -> bool {
    &&& !out.warned
    &&& out.state == RunState::Finished
    &&& out.action matches RunAction::Launch { runtime: by, root: r, file: f }
    &&& by@ == runtime
    &&& r == root
    &&& f == file
}

/// The step runs the file with the runtime for that target, if there is one.
pub open spec fn runs(
    target: TargetKind,
    engines: Engines,
    root: Place,
    file: Place,
    out: RunStep,
) -> bool {
    match runtime_for(target, engines@) {
        Ok(runtime) => launches(out, runtime, root, file),
        Err(e) => fails(out, plain(e)),
    }
}

fn go(state: RunState, action: RunAction) -> (out: RunStep)
    ensures
        goes(out, state, action),
{
    RunStep { state, warned: false, action }
}

fn fail(e: Failure) -> (out: RunStep)
    ensures
        fails(out, e@),
{
    go(RunState::Finished, RunAction::Fail(e))
}

fn bail(message: &str) -> (out: RunStep)
    ensures
        fails(out, plain(message@)),
{
    fail(Failure::of(message))
}

fn launch(target: TargetKind, engines: &Engines, root: Place, file: Place) -> (out: RunStep)
    ensures
        runs(target, *engines, root, file, out),
{
    match compatible_runtime(target, engines) {
        Ok(runtime) => go(RunState::Finished, RunAction::Launch { runtime, root, file }),
        Err(e) => fail(e),
    }
}

// A package.

/// Whether the package is a dependency of the manifest and has that name.
pub open spec fn is_direct_named(node: GraphNode, name: Seq<char>) -> bool {
    node.id.name@ == name && node.direct is Some
}

/// The dependencies of the manifest with that name.
pub open spec fn direct_named(graph: Seq<GraphNode>, name: Seq<char>) -> Seq<int> {
    search::indices(graph.len() as int, |i: int| is_direct_named(graph[i], name))
}

/// Whether the package is a dependency of the manifest under that alias.
pub open spec fn has_alias(node: GraphNode, alias: Seq<char>) -> bool {
    node.direct is Some && node.direct->0.alias@ == alias
}

/// The first package with that alias, or the number of packages.
pub open spec fn first_aliased(graph: Seq<GraphNode>, alias: Seq<char>) -> int {
    search::first_index(graph.len() as int, |i: int| has_alias(graph[i], alias))
}

fn find_named(graph: &Vec<GraphNode>, name: &str) -> (r: Vec<usize>)
    ensures
        r@.map_values(|i: usize| i as int) == direct_named(graph@, name@),
{
    let mut r: Vec<usize> = Vec::new();
    let mut i: usize = 0;
    let ghost holds = |i: int| is_direct_named(graph@[i], name@);
    while i < graph.len()
        invariant
            i <= graph.len(),
            holds == (|i: int| is_direct_named(graph@[i], name@)),
            r@.map_values(|i: usize| i as int) == search::indices(i as int, holds),
        decreases graph.len() - i,
    {
        let ghost prior = r@.map_values(|i: usize| i as int);
        if text::same(graph[i].id.name.as_str(), name) && graph[i].direct.is_some() {
            r.push(i);
            assert(r@.map_values(|i: usize| i as int) =~= prior.push(i as int));
        }
        i = i + 1;
    }
    r
}

fn find_aliased(graph: &Vec<GraphNode>, alias: &str) -> (r: Option<usize>)
    ensures
        match r {
            Some(i) => i == first_aliased(graph@, alias@) && i < graph@.len(),
            None => first_aliased(graph@, alias@) == graph@.len(),
        },
{
    let mut i: usize = 0;
    let ghost holds = |i: int| has_alias(graph@[i], alias@);
    while i < graph.len()
        invariant
            i <= graph.len(),
            holds == (|i: int| has_alias(graph@[i], alias@)),
            forall|j: int| 0 <= j < i ==> !(#[trigger] holds(j)),
        decreases graph.len() - i,
    {
        if let Some(d) = &graph[i].direct {
            if text::same(d.alias.as_str(), alias) {
                proof {
                    search::lemma_first_index(graph@.len() as int, holds, i as int);
                }
                return Some(i);
            }
        }
        assert(!holds(i as int));
        i = i + 1;
    }
    proof {
        search::lemma_first_index(graph@.len() as int, holds, i as int);
    }
    None
}

/// The step once the lockfile was looked at.
pub open spec fn after_lockfile(
    engines: Engines,
    wanted: Wanted,
    read: Result<Option<Lockfile>, Failure>,
    out: RunStep,
) -> bool {
    match read {
        Err(e) => fails(out, e@),
        Ok(None) => match wanted {
            Wanted::Package(_) => fails(
                out,
                plain("outdated lockfile, please run the install command first"@),
            ),
            Wanted::Alias(_) => out == (RunStep {
                state: RunState::AwaitScripts(engines),
                warned: true,
                action: RunAction::ReadManifest,
            }),
        },
        Ok(Some(lockfile)) => match wanted {
            Wanted::Package(name) => {
                let found = direct_named(lockfile.graph@, name@);
                if found.len() == 0 {
                    fails(out, plain("package not found"@))
                } else if found.len() > 1 {
                    fails(
                        out,
                        plain("multiple versions found. use the package's alias instead."@),
                    )
                } else {
                    goes(
                        out,
                        RunState::AwaitOwnTarget(engines, found[0] as usize),
                        RunAction::ReadManifest,
                    )
                }
            },
            Wanted::Alias(alias) => {
                let found = first_aliased(lockfile.graph@, alias@);
                if found < lockfile.graph@.len() {
                    goes(
                        out,
                        RunState::AwaitOwnTarget(engines, found as usize),
                        RunAction::ReadManifest,
                    )
                } else {
                    goes(out, RunState::AwaitScripts(engines), RunAction::ReadManifest)
                }
            },
        },
    }
}

fn on_lockfile(engines: Engines, wanted: Wanted, read: Result<Option<Lockfile>, Failure>) -> (out:
    RunStep)
    ensures
        after_lockfile(engines, wanted, read, out),
{
    let lockfile = match read {
        Err(e) => {
            return fail(e);
        },
        Ok(lockfile) => lockfile,
    };
    match (lockfile, wanted) {
        (None, Wanted::Package(_)) => bail(
            "outdated lockfile, please run the install command first",
        ),
        (None, Wanted::Alias(_)) => RunStep {
            state: RunState::AwaitScripts(engines),
            warned: true,
            action: RunAction::ReadManifest,
        },
        (Some(lockfile), Wanted::Package(name)) => {
            let found = find_named(&lockfile.graph, name.as_str());
            let ghost all = found@.map_values(|i: usize| i as int);
            assert(all.len() == found@.len());
            if found.len() == 0 {
                bail("package not found")
            } else if found.len() == 1 {
                assert(all[0] == found@[0] as int);
                go(RunState::AwaitOwnTarget(engines, found[0]), RunAction::ReadManifest)
            } else {
                bail("multiple versions found. use the package's alias instead.")
            }
        },
        (Some(lockfile), Wanted::Alias(alias)) => {
            match find_aliased(&lockfile.graph, alias.as_str()) {
                Some(i) => go(RunState::AwaitOwnTarget(engines, i), RunAction::ReadManifest),
                None => go(RunState::AwaitScripts(engines), RunAction::ReadManifest),
            }
        },
    }
}

/// The step once the target of the package is known.
pub open spec fn after_target(
    engines: Engines,
    node: usize,
    read: Result<(TargetKind, Option<String>), Failure>,
    out: RunStep,
) -> bool {
    match read {
        Err(e) => fails(out, e@),
        Ok((_, None)) => fails(out, plain("package has no bin path"@)),
        Ok((kind, Some(path))) => runs(
            kind,
            engines,
            Place::InContainer(node, path),
            Place::InContainer(node, path),
            out,
        ),
    }
}

// The start, and scripts.

/// The step once the engines are known.
pub open spec fn after_engines(
    cmd: RunCommand,
    m: Manifest,
    read: Result<Engines, Failure>,
    out: RunStep,
) -> bool {
    match read {
        Err(e) => fails(out, e@),
        Ok(engines) => match cmd.package_or_script {
            Some(name) => goes(out, RunState::AwaitReading(engines), RunAction::ReadName(name)),
            None => match m.target.bin_path {
                Some(path) => runs(
                    m.target.kind,
                    engines,
                    Place::PackageDir,
                    Place::InPackage(path),
                    out,
                ),
                None => fails(
                    out,
                    plain(
                        "no package or script specified, and no bin path found in manifest"@,
                    ),
                ),
            },
        },
    }
}

/// The step once it is known what the name can be.
pub open spec fn after_reading(engines: Engines, reading: Reading, out: RunStep) -> bool {
    match reading {
        Reading::Package(name) => goes(
            out,
            RunState::AwaitLockfile(engines, Wanted::Package(name)),
            RunAction::ReadLockfile,
        ),
        Reading::Alias(alias) => goes(
            out,
            RunState::AwaitLockfile(engines, Wanted::Alias(alias)),
            RunAction::ReadLockfile,
        ),
        Reading::Neither => goes(out, RunState::AwaitScripts(engines), RunAction::ReadManifest),
    }
}

/// The step once the scripts of the manifest are known. A manifest that cannot
/// be read has none.
pub open spec fn after_scripts(
    cmd: RunCommand,
    engines: Engines,
    read: Result<Manifest, Failure>,
    out: RunStep,
) -> bool {
    let name = cmd.package_or_script->0;
    let script = match read {
        Ok(m) => entry(m.scripts@, name@),
        Err(_) => None,
    };
    match script {
        Some(script) => goes(out, RunState::AwaitScript, RunAction::ParseScript(script.path)),
        None => goes(out, RunState::AwaitPath(engines), RunAction::StatPath(name)),
    }
}

/// The step once it is known how to run the script.
pub open spec fn after_script(read: Result<(Runtime, String), Failure>, out: RunStep) -> bool {
    match read {
        Err(e) => fails(out, caused("failed to get script info"@, e@)),
        Ok((runtime, path)) => launches(
            out,
            runtime@,
            Place::PackageDir,
            Place::InPackage(path),
        ),
    }
}

// A file.

/// The directory of the workspace: that of the package, unless it is a member.
pub open spec fn workspace_of(project: Project) -> String {
    match project.workspace_dir {
        Some(dir) => dir,
        None => project.package_dir,
    }
}

/// The step once the members of the workspace were looked for.
pub open spec fn after_members(
    project: Project,
    engines: Engines,
    members: Members,
    out: RunStep,
) -> bool {
    match members {
        Members::Failed(e) => fails(out, caused("failed to get workspace members"@, e@)),
        Members::Found => goes(
            out,
            RunState::AwaitCollected(engines),
            RunAction::CollectMembers { members: true, workspace: workspace_of(project) },
        ),
        Members::NoManifest => goes(
            out,
            RunState::AwaitCollected(engines),
            RunAction::CollectMembers { members: false, workspace: workspace_of(project) },
        ),
    }
}

/// The step that goes on to the directory above, or settles for the package.
pub open spec fn climbs(
    engines: Engines,
    members: Vec<String>,
    above: Option<String>,
    out: RunStep,
) -> bool {
    match above {
        Some(dir) => goes(
            out,
            RunState::AwaitCanonical(engines, members, Some(dir)),
            RunAction::Canonicalize(Some(dir)),
        ),
        None => goes(
            out,
            RunState::AwaitRoot(engines, Place::PackageDir),
            RunAction::ReadRoot(Place::PackageDir),
        ),
    }
}

fn climb(engines: Engines, members: Vec<String>, above: Option<String>) -> (out: RunStep)
    ensures
        climbs(engines, members, above, out),
{
    match above {
        Some(dir) => {
            let path = Some(dir.clone());
            go(
                RunState::AwaitCanonical(engines, members, Some(dir)),
                RunAction::Canonicalize(path),
            )
        },
        None => go(
            RunState::AwaitRoot(engines, Place::PackageDir),
            RunAction::ReadRoot(Place::PackageDir),
        ),
    }
}

/// The step once the path is canonical: a member of the workspace may be the
/// root.
pub open spec fn after_canonical(
    engines: Engines,
    members: Vec<String>,
    found: Result<String, Failure>,
    above: Option<String>,
    out: RunStep,
) -> bool {
    match found {
        Err(e) => fails(out, caused("failed to canonicalize parent"@, e@)),
        Ok(path) => if text::texts(members@).contains(path@) {
            goes(
                out,
                RunState::AwaitManifestCheck(engines, members, path, above),
                RunAction::StatManifest(path),
            )
        } else {
            climbs(engines, members, above, out)
        },
    }
}

/// The step once the manifest of the root was read.
pub open spec fn after_root(
    cmd: RunCommand,
    engines: Engines,
    root: Place,
    read: RootRead,
    out: RunStep,
) -> bool {
    match read {
        RootRead::ReadFailed(e) => fails(out, caused("failed to read manifest at root"@, e@)),
        RootRead::ParseFailed(e) => fails(
            out,
            caused("failed to deserialize manifest at root"@, e@),
        ),
        RootRead::Target(kind) => runs(
            kind,
            engines,
            root,
            Place::InPackage(cmd.package_or_script->0),
            out,
        ),
    }
}

// The whole.

/// Whether the state is one that is reached only with something named.
pub open spec fn needs_name(s: RunState) -> bool {
    match s {
        RunState::AwaitManifest => false,
        RunState::AwaitEngines(_) => false,
        RunState::Finished => false,
        _ => true,
    }
}

/// Whether the event is one that the state waits for.
pub open spec fn awaits(cmd: RunCommand, s: RunState, e: RunEvent) -> bool {
    &&& needs_name(s) ==> cmd.package_or_script is Some
    &&& match (s, e) {
        (RunState::AwaitManifest, RunEvent::Manifest(_)) => true,
        (RunState::AwaitEngines(_), RunEvent::Engines(_)) => true,
        (RunState::AwaitReading(_), RunEvent::Reading(_)) => true,
        (RunState::AwaitLockfile(_, _), RunEvent::Lockfile(_)) => true,
        (RunState::AwaitOwnTarget(_, _), RunEvent::Manifest(_)) => true,
        (RunState::AwaitRefresh(_, _, _), RunEvent::Refreshed(_)) => true,
        (RunState::AwaitTarget(_, _), RunEvent::Target(_)) => true,
        (RunState::AwaitScripts(_), RunEvent::Manifest(_)) => true,
        (RunState::AwaitScript, RunEvent::Script(_)) => true,
        (RunState::AwaitPath(_), RunEvent::Path { .. }) => true,
        (RunState::AwaitMembers(_), RunEvent::Members(_)) => true,
        (RunState::AwaitCollected(_), RunEvent::Collected(_)) => true,
        (RunState::AwaitCanonical(_, _, _), RunEvent::Canonical(_, _)) => true,
        (RunState::AwaitManifestCheck(_, _, _, _), RunEvent::HasManifest(_)) => true,
        (RunState::AwaitRoot(_, _), RunEvent::Root(_)) => true,
        _ => false,
    }
}

/// What comes of the event in that state.
pub open spec fn is_step(
    cmd: RunCommand,
    project: Project,
    s: RunState,
    e: RunEvent,
    out: RunStep,
) -> bool {
    match (s, e) {
        (RunState::AwaitManifest, RunEvent::Manifest(r)) => match r {
            Err(e) => fails(out, caused("failed to deserialize manifest"@, e@)),
            Ok(m) => goes(out, RunState::AwaitEngines(m), RunAction::FindEngines),
        },
        (RunState::AwaitEngines(m), RunEvent::Engines(r)) => after_engines(cmd, m, r, out),
        (RunState::AwaitReading(engines), RunEvent::Reading(r)) => after_reading(engines, r, out),
        (RunState::AwaitLockfile(engines, wanted), RunEvent::Lockfile(r)) => after_lockfile(
            engines,
            wanted,
            r,
            out,
        ),
        (RunState::AwaitOwnTarget(engines, node), RunEvent::Manifest(r)) => match r {
            Err(e) => fails(out, caused("failed to deserialize manifest"@, e@)),
            Ok(m) => goes(
                out,
                RunState::AwaitRefresh(engines, node, m.target.kind),
                RunAction::Refresh(node),
            ),
        },
        (RunState::AwaitRefresh(engines, node, kind), RunEvent::Refreshed(r)) => match r {
            Err(e) => fails(out, caused("failed to refresh source"@, e@)),
            Ok(_) => goes(
                out,
                RunState::AwaitTarget(engines, node),
                RunAction::GetTarget(node, kind),
            ),
        },
        (RunState::AwaitTarget(engines, node), RunEvent::Target(r)) => after_target(
            engines,
            node,
            r,
            out,
        ),
        (RunState::AwaitScripts(engines), RunEvent::Manifest(r)) => after_scripts(
            cmd,
            engines,
            r,
            out,
        ),
        (RunState::AwaitScript, RunEvent::Script(r)) => after_script(r, out),
        (RunState::AwaitPath(engines), RunEvent::Path { exists, shown }) => if exists {
            goes(out, RunState::AwaitMembers(engines), RunAction::ListMembers)
        } else {
            fails(out, plain("path `"@ + shown@ + "` does not exist"@))
        },
        (RunState::AwaitMembers(engines), RunEvent::Members(r)) => after_members(
            project,
            engines,
            r,
            out,
        ),
        (RunState::AwaitCollected(engines), RunEvent::Collected(r)) => match r {
            Err(e) => fails(out, caused("failed to collect workspace members"@, e@)),
            Ok(members) => goes(
                out,
                RunState::AwaitCanonical(engines, members, None),
                RunAction::Canonicalize(None),
            ),
        },
        (
            RunState::AwaitCanonical(engines, members, _),
            RunEvent::Canonical(r, above),
        ) => after_canonical(engines, members, r, above, out),
        (
            RunState::AwaitManifestCheck(engines, members, path, above),
            RunEvent::HasManifest(there),
        ) => if there {
            goes(
                out,
                RunState::AwaitRoot(engines, Place::At(path)),
                RunAction::ReadRoot(Place::At(path)),
            )
        } else {
            climbs(engines, members, above, out)
        },
        (RunState::AwaitRoot(engines, root), RunEvent::Root(r)) => after_root(
            cmd,
            engines,
            root,
            r,
            out,
        ),
        _ => false,
    }
}

impl RunCommand {
    /// The first step of a run.
    pub fn run(&self) -> (out: RunStep)
        ensures
            goes(out, RunState::AwaitManifest, RunAction::ReadManifest),
    {
        go(RunState::AwaitManifest, RunAction::ReadManifest)
    }

    fn on_engines(&self, m: Manifest, read: Result<Engines, Failure>) -> (out: RunStep)
        ensures
            after_engines(*self, m, read, out),
    {
        let engines = match read {
            Err(e) => {
                return fail(e);
            },
            Ok(engines) => engines,
        };
        match &self.package_or_script {
            Some(name) => go(RunState::AwaitReading(engines), RunAction::ReadName(name.clone())),
            None => match m.target.bin_path {
                Some(path) => launch(
                    m.target.kind,
                    &engines,
                    Place::PackageDir,
                    Place::InPackage(path),
                ),
                None => bail("no package or script specified, and no bin path found in manifest"),
            },
        }
    }

    fn on_scripts(&self, engines: Engines, read: Result<Manifest, Failure>) -> (out: RunStep)
        requires
            self.package_or_script is Some,
        ensures
            after_scripts(*self, engines, read, out),
    {
        let name = self.package_or_script.clone().unwrap();
        if let Ok(m) = read {
            if let Some(script) = find(&m.scripts, name.as_str()) {
                return go(RunState::AwaitScript, RunAction::ParseScript(script.path.clone()));
            }
        }
        go(RunState::AwaitPath(engines), RunAction::StatPath(name))
    }

    /// The next step of a run.
    pub fn step(&self, project: &Project, state: RunState, event: RunEvent) -> (out: RunStep)
        requires
            awaits(*self, state, event),
        ensures
            is_step(*self, *project, state, event, out),
    {
        match (state, event) {
            (RunState::AwaitManifest, RunEvent::Manifest(r)) => match r {
                Err(e) => fail(e.context("failed to deserialize manifest")),
                Ok(m) => go(RunState::AwaitEngines(m), RunAction::FindEngines),
            },
            (RunState::AwaitEngines(m), RunEvent::Engines(r)) => self.on_engines(m, r),
            (RunState::AwaitReading(engines), RunEvent::Reading(r)) => match r {
                Reading::Package(name) => go(
                    RunState::AwaitLockfile(engines, Wanted::Package(name)),
                    RunAction::ReadLockfile,
                ),
                Reading::Alias(alias) => go(
                    RunState::AwaitLockfile(engines, Wanted::Alias(alias)),
                    RunAction::ReadLockfile,
                ),
                Reading::Neither => go(RunState::AwaitScripts(engines), RunAction::ReadManifest),
            },
            (RunState::AwaitLockfile(engines, wanted), RunEvent::Lockfile(r)) => on_lockfile(
                engines,
                wanted,
                r,
            ),
            (RunState::AwaitOwnTarget(engines, node), RunEvent::Manifest(r)) => match r {
                Err(e) => fail(e.context("failed to deserialize manifest")),
                Ok(m) => go(
                    RunState::AwaitRefresh(engines, node, m.target.kind),
                    RunAction::Refresh(node),
                ),
            },
            (RunState::AwaitRefresh(engines, node, kind), RunEvent::Refreshed(r)) => match r {
                Err(e) => fail(e.context("failed to refresh source")),
                Ok(_) => go(
                    RunState::AwaitTarget(engines, node),
                    RunAction::GetTarget(node, kind),
                ),
            },
            (RunState::AwaitTarget(engines, node), RunEvent::Target(r)) => match r {
                Err(e) => fail(e),
                Ok((_, None)) => bail("package has no bin path"),
                Ok((kind, Some(path))) => {
                    let root = Place::InContainer(node, path.clone());
                    launch(kind, &engines, root, Place::InContainer(node, path))
                },
            },
            (RunState::AwaitScripts(engines), RunEvent::Manifest(r)) => self.on_scripts(
                engines,
                r,
            ),
            (RunState::AwaitScript, RunEvent::Script(r)) => match r {
                Err(e) => fail(e.context("failed to get script info")),
                Ok((runtime, path)) => go(
                    RunState::Finished,
                    RunAction::Launch {
                        runtime,
                        root: Place::PackageDir,
                        file: Place::InPackage(path),
                    },
                ),
            },
            (RunState::AwaitPath(engines), RunEvent::Path { exists, shown }) => {
                if exists {
                    go(RunState::AwaitMembers(engines), RunAction::ListMembers)
                } else {
                    fail(Failure::new(text::cat3("path `", shown.as_str(), "` does not exist")))
                }
            },
            (RunState::AwaitMembers(engines), RunEvent::Members(r)) => {
                let members = match r {
                    Members::Failed(e) => {
                        return fail(e.context("failed to get workspace members"));
                    },
                    Members::Found => true,
                    Members::NoManifest => false,
                };
                let workspace = match &project.workspace_dir {
                    Some(dir) => dir.clone(),
                    None => project.package_dir.clone(),
                };
                go(
                    RunState::AwaitCollected(engines),
                    RunAction::CollectMembers { members, workspace },
                )
            },
            (RunState::AwaitCollected(engines), RunEvent::Collected(r)) => match r {
                Err(e) => fail(e.context("failed to collect workspace members")),
                Ok(members) => go(
                    RunState::AwaitCanonical(engines, members, None),
                    RunAction::Canonicalize(None),
                ),
            },
            (RunState::AwaitCanonical(engines, members, _), RunEvent::Canonical(r, above)) => {
                match r {
                    Err(e) => fail(e.context("failed to canonicalize parent")),
                    Ok(path) => {
                        if search::contains_text(&members, path.as_str()) {
                            let dir = path.clone();
                            go(
                                RunState::AwaitManifestCheck(engines, members, path, above),
                                RunAction::StatManifest(dir),
                            )
                        } else {
                            climb(engines, members, above)
                        }
                    },
                }
            },
            (
                RunState::AwaitManifestCheck(engines, members, path, above),
                RunEvent::HasManifest(there),
            ) => {
                if there {
                    let dir = path.clone();
                    go(
                        RunState::AwaitRoot(engines, Place::At(path)),
                        RunAction::ReadRoot(Place::At(dir)),
                    )
                } else {
                    climb(engines, members, above)
                }
            },
            (RunState::AwaitRoot(engines, root), RunEvent::Root(r)) => match r {
                RootRead::ReadFailed(e) => fail(e.context("failed to read manifest at root")),
                RootRead::ParseFailed(e) => fail(
                    e.context("failed to deserialize manifest at root"),
                ),
                RootRead::Target(kind) => launch(
                    kind,
                    &engines,
                    root,
                    Place::InPackage(self.package_or_script.clone().unwrap()),
                ),
            },
            _ => go(RunState::Finished, RunAction::ReadManifest),
        }
    }
}

// What holds of every run.

/// What a state relies on when its event comes.
pub open spec fn well_formed(cmd: RunCommand, s: RunState) -> bool {
    &&& needs_name(s) ==> cmd.package_or_script is Some
    &&& s matches RunState::AwaitManifestCheck(_, members, path, _) ==> text::texts(
        members@,
    ).contains(path@)
}

/// Every step leads to a state whose conditions hold.
pub proof fn steps_keep_well_formed(
    cmd: RunCommand,
    project: Project,
    s: RunState,
    e: RunEvent,
    out: RunStep,
)
    requires
        well_formed(cmd, s),
        awaits(cmd, s, e),
        is_step(cmd, project, s, e, out),
    ensures
        well_formed(cmd, out.state),
{
}

/// Whether the event is what the action asks for.
pub open spec fn answers(a: RunAction, e: RunEvent) -> bool {
    match a {
        RunAction::ReadManifest => e is Manifest,
        RunAction::FindEngines => e is Engines,
        RunAction::ReadName(_) => e is Reading,
        RunAction::ReadLockfile => e is Lockfile,
        RunAction::Refresh(_) => e is Refreshed,
        RunAction::GetTarget(_, _) => e is Target,
        RunAction::ParseScript(_) => e is Script,
        RunAction::StatPath(_) => e is Path,
        RunAction::ListMembers => e is Members,
        RunAction::CollectMembers { .. } => e is Collected,
        RunAction::Canonicalize(_) => e is Canonical,
        RunAction::StatManifest(_) => e is HasManifest,
        RunAction::ReadRoot(_) => e is Root,
        RunAction::Launch { .. } => false,
        RunAction::Fail(_) => false,
    }
}

/// Whoever does what a step asks for, and answers with what came of it, can take
/// the next step.
pub proof fn answers_are_awaited(
    cmd: RunCommand,
    project: Project,
    s: RunState,
    e: RunEvent,
    out: RunStep,
    next: RunEvent,
)
    requires
        well_formed(cmd, s),
        awaits(cmd, s, e),
        is_step(cmd, project, s, e, out),
        answers(out.action, next),
    ensures
        awaits(cmd, out.state, next),
{
}

/// The engines that a state knows of.
pub open spec fn engines_of(s: RunState, e: RunEvent) -> Option<Engines> {
    match s {
        RunState::AwaitEngines(_) => match e {
            RunEvent::Engines(Ok(engines)) => Some(engines),
            _ => None,
        },
        RunState::AwaitTarget(engines, _) => Some(engines),
        RunState::AwaitRoot(engines, _) => Some(engines),
        _ => None,
    }
}

/// Whatever is launched is run by an engine that there is; of a script of the
/// manifest, the one that was found for it.
pub proof fn launched_with_what_is_there(
    cmd: RunCommand,
    project: Project,
    s: RunState,
    e: RunEvent,
    out: RunStep,
    runtime: Runtime,
    root: Place,
    file: Place,
)
    requires
        awaits(cmd, s, e),
        is_step(cmd, project, s, e, out),
        out.action == (RunAction::Launch { runtime, root, file }),
    ensures
        match engines_of(s, e) {
            Some(engines) => (engines@)(engine_of(runtime.kind)) == Some(runtime.version@),
            None => e matches RunEvent::Script(Ok((r, path))) && r@ == runtime@,
        },
{
}

/// A package that is run by its name is a dependency of the manifest, and the
/// only one with that name.
pub proof fn named_package_is_unique(
    cmd: RunCommand,
    project: Project,
    engines: Engines,
    name: String,
    lockfile: Lockfile,
    out: RunStep,
    node: usize,
    other: int,
)
    requires
        is_step(
            cmd,
            project,
            RunState::AwaitLockfile(engines, Wanted::Package(name)),
            RunEvent::Lockfile(Ok(Some(lockfile))),
            out,
        ),
        out.state == RunState::AwaitOwnTarget(engines, node),
        0 <= other < lockfile.graph@.len(),
    ensures
        node < lockfile.graph@.len(),
        is_direct_named(lockfile.graph@[node as int], name@),
        is_direct_named(lockfile.graph@[other], name@) ==> other == node,
{
    assert(lockfile.graph.len() == lockfile.graph@.len());
    let n = lockfile.graph@.len() as int;
    let holds = |i: int| is_direct_named(lockfile.graph@[i], name@);
    let found = direct_named(lockfile.graph@, name@);
    search::lemma_indices_ascend(n, holds);
    search::lemma_indices(n, holds, found[0]);
    assert(found.contains(found[0]));
    assert(holds(found[0]));
    search::lemma_indices(n, holds, other);
    if is_direct_named(lockfile.graph@[other], name@) {
        assert(holds(other));
        assert(found.contains(other));
    }
}

/// The root that a file is run in is the package, or else a member of the
/// workspace with a manifest.
pub proof fn root_is_a_member(
    cmd: RunCommand,
    project: Project,
    s: RunState,
    e: RunEvent,
    out: RunStep,
    engines: Engines,
    root: Place,
)
    requires
        well_formed(cmd, s),
        awaits(cmd, s, e),
        is_step(cmd, project, s, e, out),
        out.state == RunState::AwaitRoot(engines, root),
    ensures
        root == Place::PackageDir || (s matches RunState::AwaitManifestCheck(_, members, path, _)
            && root == Place::At(path) && e == RunEvent::HasManifest(true) && text::texts(
            members@,
        ).contains(path@)),
{
}

} // verus!
