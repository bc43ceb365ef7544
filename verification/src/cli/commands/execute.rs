//! Executing a package without installing it.

use crate::cli::engines::{compatible_runtime, exit_code, runtime_for};
use crate::cli::identifiers::VersionedPackageName;
use crate::engine::{Engines, Runtime};
use crate::failure::{caused, plain, Failure};
use crate::git_url::GitUrl;
use crate::keyed::{entry, find, Keyed};
use crate::project::{
    package_id_text, token_pairs, PackageId, Project, TargetKind, DEFAULT_INDEX_NAME,
};
use crate::text;
use crate::version::VersionReq;
use vstd::prelude::*;

verus! {

/// Executes a package. The arguments for it stay with the caller.
#[derive(Debug)]
pub struct ExecuteCommand {
    /// The package to run.
    pub package: VersionedPackageName<VersionReq, String>,
    /// The target of the package to run.
    pub target: TargetKind,
    /// The index URL to use for the package.
    pub index: Option<GitUrl>,
}

/// What is looked for in an index.
#[derive(Debug)]
pub struct Query {
    pub name: String,
    pub version: VersionReq,
    pub index: &'static str,
    pub target: TargetKind,
    /// Whether packages for other targets are found that run on this one too.
    pub loose_target: bool,
}

/// An entry of the file that an index has for a package.
#[derive(Debug)]
pub struct IndexEntry {
    pub version_id: String,
    pub kind: TargetKind,
    pub bin_path: Option<String>,
}

impl Keyed for IndexEntry {
    open spec fn key(&self) -> Seq<char> {
        self.version_id@
    }

    fn key_text(&self) -> (r: &str) {
        self.version_id.as_str()
    }
}

/// What is known of the package that is executed.
#[derive(Debug)]
pub struct Found {
    pub id: PackageId,
    /// The project that it is executed in.
    pub project: Project,
    pub kind: TargetKind,
    pub bin_path: String,
}

/// How running the package went wrong.
#[derive(Debug)]
pub enum RunFailure {
    CreateFile(Failure),
    WriteFile(Failure),
    CurrentDir(Failure),
    Run(Failure),
}

/// Where an execution stands.
#[derive(Debug)]
pub enum ExecuteState {
    AwaitConfig,
    AwaitRefresh,
    AwaitResolved,
    /// The version that is executed.
    AwaitTempDir(String),
    AwaitIndexFile(String, Project),
    AwaitDownload(Found),
    AwaitWritten(Found),
    AwaitGraph(Found),
    AwaitLinked(Found),
    AwaitManifest(Found),
    AwaitEngines(Found),
    AwaitRun,
    Finished,
}

/// What is to be done next.
#[derive(Debug)]
pub enum ExecuteAction {
    ReadConfig,
    Refresh(GitUrl),
    Resolve(Query),
    MakeTempDir,
    /// Read the file that the index has for this package.
    ReadIndexFile(String),
    /// Download the package, into the project that was set up for it.
    Download,
    WritePackage,
    BuildGraph,
    DownloadAndLink,
    ReadManifest,
    FindEngines,
    /// Run this path of the package.
    Run { runtime: Runtime, bin_path: String },
    /// End with this code.
    Exit(i32),
    Fail(Failure),
}

/// What came of the work.
#[derive(Debug)]
pub enum ExecuteEvent {
    /// The default index, if the configuration could be read.
    Config(Option<GitUrl>),
    Refreshed(Result<(), Failure>),
    /// The versions that were found, in ascending order.
    Resolved(Result<Vec<String>, Failure>),
    TempDir(Result<String, Failure>),
    /// The entries of the file, if there is one.
    IndexFile(Result<Option<Vec<IndexEntry>>, Failure>),
    Downloaded(Result<(), Failure>),
    Written(Result<(), Failure>),
    Graph(Result<(), Failure>),
    Linked(Result<(), Failure>),
    Manifest(Result<(), Failure>),
    Engines(Result<Engines, Failure>),
    /// The exit code, if there is one.
    Ran(Result<Option<i32>, RunFailure>),
}

/// The outcome of a step.
#[derive(Debug)]
pub struct ExecuteStep {
    pub state: ExecuteState,
    /// The package that the user is told is used.
    pub used: Option<String>,
    pub action: ExecuteAction,
}

/// The step leads to that state and action.
pub open spec fn goes(out: ExecuteStep, state: ExecuteState, action: ExecuteAction) -> bool {
    out == (ExecuteStep { state, used: None, action })
}

/// The step ends the execution with that error.
pub open spec fn fails(out: ExecuteStep, e: Seq<Seq<char>>) -> bool {
    &&& out.used is None
    &&& out.state == ExecuteState::Finished
    &&& out.action matches ExecuteAction::Fail(f)
    &&& f@ == e
}

fn go(state: ExecuteState, action: ExecuteAction) -> (out: ExecuteStep)
    ensures
        goes(out, state, action),
{
    ExecuteStep { state, used: None, action }
}

fn fail(e: Failure) -> (out: ExecuteStep)
    ensures
        fails(out, e@),
{
    go(ExecuteState::Finished, ExecuteAction::Fail(e))
}

fn bail(message: &str) -> (out: ExecuteStep)
    ensures
        fails(out, plain(message@)),
{
    fail(Failure::of(message))
}

/// The step refreshes that index.
pub open spec fn refreshes(out: ExecuteStep, index: GitUrl) -> bool {
    &&& out.used is None
    &&& out.state == ExecuteState::AwaitRefresh
    &&& out.action matches ExecuteAction::Refresh(u)
    &&& u@ == index@
}

/// The first step, given whether the target has anything to execute and how it
/// is shown.
pub open spec fn is_first_step(
    cmd: ExecuteCommand,
    has_bin: bool,
    shown: Seq<char>,
    out: ExecuteStep,
) -> bool {
    if !has_bin {
        fails(out, plain(shown + " doesn't support bin exports!"@))
    } else {
        match cmd.index {
            Some(index) => refreshes(out, index),
            None => goes(out, ExecuteState::AwaitConfig, ExecuteAction::ReadConfig),
        }
    }
}

/// The versions that are asked for: any, unless some were named.
pub open spec fn asked_version(cmd: ExecuteCommand) -> Seq<char> {
    match cmd.package.1 {
        Some(q) => q@,
        None => "*"@,
    }
}

/// Whether the query is the one for the package.
pub open spec fn is_query(cmd: ExecuteCommand, q: Query) -> bool {
    &&& q.name == cmd.package.0
    &&& q.version@ == asked_version(cmd)
    &&& q.index@ == DEFAULT_INDEX_NAME@
    &&& q.target == cmd.target
    &&& q.loose_target
}

/// The step once the versions are known: the highest is used.
pub open spec fn after_resolved(
    cmd: ExecuteCommand,
    r: Result<Vec<String>, Failure>,
    out: ExecuteStep,
) -> bool {
    match r {
        Err(e) => fails(out, caused("failed to resolve package"@, e@)),
        Ok(versions) => if versions@.len() == 0 {
            fails(
                out,
                plain(
                    "no compatible package could be found for "@ + cmd.package.0@ + "@"@
                        + asked_version(cmd),
                ),
            )
        } else {
            goes(out, ExecuteState::AwaitTempDir(versions@.last()), ExecuteAction::MakeTempDir)
        },
    }
}

/// Whether `r` is the project in the temporary directory: it is no member of a
/// workspace, and shares everything else.
pub open spec fn is_own_project(project: Project, dir: String, r: Project) -> bool {
    &&& r.package_dir == dir
    &&& r.workspace_dir is None
    &&& r.data_dir == project.data_dir
    &&& r.cas_dir == project.cas_dir
    &&& token_pairs(r.auth_config.tokens@) == token_pairs(project.auth_config.tokens@)
    &&& project.auth_config.well_formed() ==> r.auth_config.well_formed()
}

/// The step once there is a temporary directory.
pub open spec fn after_temp_dir(
    cmd: ExecuteCommand,
    project: Project,
    version: String,
    r: Result<String, Failure>,
    out: ExecuteStep,
) -> bool {
    match r {
        Err(e) => fails(out, caused("failed to create temporary directory"@, e@)),
        Ok(dir) => {
            &&& out.used is None
            &&& out.action == ExecuteAction::ReadIndexFile(cmd.package.0)
            &&& out.state matches ExecuteState::AwaitIndexFile(v, own)
            &&& v == version
            &&& is_own_project(project, dir, own)
        },
    }
}

/// The step once the file of the package was read.
pub open spec fn after_index_file(
    cmd: ExecuteCommand,
    version: String,
    own: Project,
    r: Result<Option<Vec<IndexEntry>>, Failure>,
    out: ExecuteStep,
) -> bool {
    match r {
        Err(e) => fails(out, caused("failed to read package index file"@, e@)),
        Ok(None) => fails(out, plain("package doesn't exist on the index"@)),
        Ok(Some(entries)) => match entry(entries@, version@) {
            None => fails(out, plain("version id not present in index file"@)),
            Some(found) => match found.bin_path {
                None => fails(out, plain("package has no binary export"@)),
                Some(path) => {
                    &&& out.used is None
                    &&& out.action == ExecuteAction::Download
                    &&& out.state matches ExecuteState::AwaitDownload(f)
                    &&& f == (Found {
                        id: PackageId { name: cmd.package.0, version_id: version },
                        project: own,
                        kind: found.kind,
                        bin_path: path,
                    })
                },
            },
        },
    }
}

/// The step once there is a dependency graph: the user is told which package is
/// used.
pub open spec fn after_graph(found: Found, r: Result<(), Failure>, out: ExecuteStep) -> bool {
    match r {
        Err(e) => fails(out, caused("failed to build dependency graph"@, e@)),
        Ok(_) => {
            &&& out.used is Some
            &&& out.used->0@ == "using "@ + package_id_text(found.id@)
            &&& out.state == ExecuteState::AwaitLinked(found)
            &&& out.action == ExecuteAction::DownloadAndLink
        },
    }
}

/// The step once the engines are known.
pub open spec fn after_engines(
    found: Found,
    r: Result<Engines, Failure>,
    out: ExecuteStep,
) -> bool {
    match r {
        Err(e) => fails(out, e@),
        Ok(engines) => match runtime_for(found.kind, engines@) {
            Err(e) => fails(out, plain(e)),
            Ok(by) => {
                &&& out.used is None
                &&& out.state == ExecuteState::AwaitRun
                &&& out.action matches ExecuteAction::Run { runtime, bin_path }
                &&& runtime@ == by
                &&& bin_path == found.bin_path
            },
        },
    }
}

/// The step once the package has run.
pub open spec fn after_run(r: Result<Option<i32>, RunFailure>, out: ExecuteStep) -> bool {
    match r {
        Err(RunFailure::CreateFile(e)) => fails(out, caused("failed to create tempfile"@, e@)),
        Err(RunFailure::WriteFile(e)) => fails(out, caused("failed to write to tempfile"@, e@)),
        Err(RunFailure::CurrentDir(e)) => fails(
            out,
            caused("failed to get current directory"@, e@),
        ),
        Err(RunFailure::Run(e)) => fails(out, caused("failed to run script"@, e@)),
        Ok(code) => goes(
            out,
            ExecuteState::Finished,
            ExecuteAction::Exit(
                match code {
                    Some(c) => c,
                    None => 1,
                },
            ),
        ),
    }
}

/// The step after work that can only succeed or fail.
pub open spec fn after_work(
    r: Result<(), Failure>,
    message: Seq<char>,
    state: ExecuteState,
    action: ExecuteAction,
    out: ExecuteStep,
) -> bool {
    match r {
        Err(e) => fails(out, caused(message, e@)),
        Ok(_) => goes(out, state, action),
    }
}

fn on_work(
    r: Result<(), Failure>,
    message: &str,
    state: ExecuteState,
    action: ExecuteAction,
) -> (out: ExecuteStep)
    ensures
        after_work(r, message@, state, action, out),
{
    match r {
        Err(e) => fail(e.context(message)),
        Ok(_) => go(state, action),
    }
}

/// Whether the event is one that the state waits for.
pub open spec fn awaits(s: ExecuteState, e: ExecuteEvent) -> bool {
    match (s, e) {
        (ExecuteState::AwaitConfig, ExecuteEvent::Config(_)) => true,
        (ExecuteState::AwaitRefresh, ExecuteEvent::Refreshed(_)) => true,
        (ExecuteState::AwaitResolved, ExecuteEvent::Resolved(_)) => true,
        (ExecuteState::AwaitTempDir(_), ExecuteEvent::TempDir(_)) => true,
        (ExecuteState::AwaitIndexFile(_, _), ExecuteEvent::IndexFile(_)) => true,
        (ExecuteState::AwaitDownload(_), ExecuteEvent::Downloaded(_)) => true,
        (ExecuteState::AwaitWritten(_), ExecuteEvent::Written(_)) => true,
        (ExecuteState::AwaitGraph(_), ExecuteEvent::Graph(_)) => true,
        (ExecuteState::AwaitLinked(_), ExecuteEvent::Linked(_)) => true,
        (ExecuteState::AwaitManifest(_), ExecuteEvent::Manifest(_)) => true,
        (ExecuteState::AwaitEngines(_), ExecuteEvent::Engines(_)) => true,
        (ExecuteState::AwaitRun, ExecuteEvent::Ran(_)) => true,
        _ => false,
    }
}

/// What comes of the event in that state.
pub open spec fn is_step(
    cmd: ExecuteCommand,
    project: Project,
    s: ExecuteState,
    e: ExecuteEvent,
    out: ExecuteStep,
) -> bool {
    match (s, e) {
        (ExecuteState::AwaitConfig, ExecuteEvent::Config(r)) => match r {
            Some(index) => refreshes(out, index),
            None => fails(out, plain("no index specified"@)),
        },
        (ExecuteState::AwaitRefresh, ExecuteEvent::Refreshed(r)) => match r {
            Err(e) => fails(out, caused("failed to refresh source"@, e@)),
            Ok(_) => {
                &&& out.used is None
                &&& out.state == ExecuteState::AwaitResolved
                &&& out.action matches ExecuteAction::Resolve(q)
                &&& is_query(cmd, q)
            },
        },
        (ExecuteState::AwaitResolved, ExecuteEvent::Resolved(r)) => after_resolved(cmd, r, out),
        (ExecuteState::AwaitTempDir(version), ExecuteEvent::TempDir(r)) => after_temp_dir(
            cmd,
            project,
            version,
            r,
            out,
        ),
        (
            ExecuteState::AwaitIndexFile(version, own),
            ExecuteEvent::IndexFile(r),
        ) => after_index_file(cmd, version, own, r, out),
        (ExecuteState::AwaitDownload(found), ExecuteEvent::Downloaded(r)) => after_work(
            r,
            "failed to download package"@,
            ExecuteState::AwaitWritten(found),
            ExecuteAction::WritePackage,
            out,
        ),
        (ExecuteState::AwaitWritten(found), ExecuteEvent::Written(r)) => after_work(
            r,
            "failed to write package contents"@,
            ExecuteState::AwaitGraph(found),
            ExecuteAction::BuildGraph,
            out,
        ),
        (ExecuteState::AwaitGraph(found), ExecuteEvent::Graph(r)) => after_graph(found, r, out),
        (ExecuteState::AwaitLinked(found), ExecuteEvent::Linked(r)) => after_work(
            r,
            "failed to download and link dependencies"@,
            ExecuteState::AwaitManifest(found),
            ExecuteAction::ReadManifest,
            out,
        ),
        (ExecuteState::AwaitManifest(found), ExecuteEvent::Manifest(r)) => after_work(
            r,
            "failed to deserialize manifest"@,
            ExecuteState::AwaitEngines(found),
            ExecuteAction::FindEngines,
            out,
        ),
        (ExecuteState::AwaitEngines(found), ExecuteEvent::Engines(r)) => after_engines(
            found,
            r,
            out,
        ),
        (ExecuteState::AwaitRun, ExecuteEvent::Ran(r)) => after_run(r, out),
        _ => false,
    }
}

fn own_project(project: &Project, dir: String) -> (r: Project)
    ensures
        is_own_project(*project, dir, r),
{
    Project {
        package_dir: dir,
        workspace_dir: None,
        data_dir: project.data_dir.clone(),
        cas_dir: project.cas_dir.clone(),
        auth_config: project.auth_config.copy(),
    }
}

impl ExecuteCommand {
    /// The first step of an execution, given whether the target has anything to
    /// execute and how it is shown.
    pub fn run(&self, has_bin: bool, shown: &str) -> (out: ExecuteStep)
        ensures
            is_first_step(*self, has_bin, shown@, out),
    {
        if !has_bin {
            return fail(Failure::new(text::cat(shown, " doesn't support bin exports!")));
        }
        match &self.index {
            Some(index) => go(ExecuteState::AwaitRefresh, ExecuteAction::Refresh(index.copy())),
            None => go(ExecuteState::AwaitConfig, ExecuteAction::ReadConfig),
        }
    }

    fn version_req(&self) -> (r: VersionReq)
        ensures
            r@ == asked_version(*self),
    {
        match &self.package.1 {
            Some(q) => VersionReq { text: q.text.clone() },
            None => VersionReq::star(),
        }
    }

    fn on_resolved(&self, r: Result<Vec<String>, Failure>) -> (out: ExecuteStep)
        ensures
            after_resolved(*self, r, out),
    {
        let mut versions = match r {
            Err(e) => {
                return fail(e.context("failed to resolve package"));
            },
            Ok(versions) => versions,
        };
        match versions.pop() {
            Some(version) => go(ExecuteState::AwaitTempDir(version), ExecuteAction::MakeTempDir),
            None => {
                let req = self.version_req();
                fail(
                    Failure::new(
                        text::cat4(
                            "no compatible package could be found for ",
                            self.package.0.as_str(),
                            "@",
                            req.text.as_str(),
                        ),
                    ),
                )
            },
        }
    }

    fn on_index_file(
        &self,
        version: String,
        own: Project,
        r: Result<Option<Vec<IndexEntry>>, Failure>,
    ) -> (out: ExecuteStep)
        ensures
            after_index_file(*self, version, own, r, out),
    {
        let entries = match r {
            Err(e) => {
                return fail(e.context("failed to read package index file"));
            },
            Ok(None) => {
                return bail("package doesn't exist on the index");
            },
            Ok(Some(entries)) => entries,
        };
        let (kind, bin_path) = match find(&entries, version.as_str()) {
            None => {
                return bail("version id not present in index file");
            },
            Some(found) => (found.kind, found.bin_path.clone()),
        };
        match bin_path {
            None => bail("package has no binary export"),
            Some(bin_path) => go(
                ExecuteState::AwaitDownload(
                    Found {
                        id: PackageId { name: self.package.0.clone(), version_id: version },
                        project: own,
                        kind,
                        bin_path,
                    },
                ),
                ExecuteAction::Download,
            ),
        }
    }

    /// The next step of an execution.
    pub fn step(&self, project: &Project, state: ExecuteState, event: ExecuteEvent) -> (out:
        ExecuteStep)
        requires
            awaits(state, event),
        ensures
            is_step(*self, *project, state, event, out),
    {
        match (state, event) {
            (ExecuteState::AwaitConfig, ExecuteEvent::Config(r)) => match r {
                Some(index) => go(ExecuteState::AwaitRefresh, ExecuteAction::Refresh(index)),
                None => bail("no index specified"),
            },
            (ExecuteState::AwaitRefresh, ExecuteEvent::Refreshed(r)) => match r {
                Err(e) => fail(e.context("failed to refresh source")),
                Ok(_) => go(
                    ExecuteState::AwaitResolved,
                    ExecuteAction::Resolve(
                        Query {
                            name: self.package.0.clone(),
                            version: self.version_req(),
                            index: DEFAULT_INDEX_NAME,
                            target: self.target,
                            loose_target: true,
                        },
                    ),
                ),
            },
            (ExecuteState::AwaitResolved, ExecuteEvent::Resolved(r)) => self.on_resolved(r),
            (ExecuteState::AwaitTempDir(version), ExecuteEvent::TempDir(r)) => match r {
                Err(e) => fail(e.context("failed to create temporary directory")),
                Ok(dir) => {
                    let own = own_project(project, dir);
                    go(
                        ExecuteState::AwaitIndexFile(version, own),
                        ExecuteAction::ReadIndexFile(self.package.0.clone()),
                    )
                },
            },
            (
                ExecuteState::AwaitIndexFile(version, own),
                ExecuteEvent::IndexFile(r),
            ) => self.on_index_file(version, own, r),
            (ExecuteState::AwaitDownload(found), ExecuteEvent::Downloaded(r)) => on_work(
                r,
                "failed to download package",
                ExecuteState::AwaitWritten(found),
                ExecuteAction::WritePackage,
            ),
            (ExecuteState::AwaitWritten(found), ExecuteEvent::Written(r)) => on_work(
                r,
                "failed to write package contents",
                ExecuteState::AwaitGraph(found),
                ExecuteAction::BuildGraph,
            ),
            (ExecuteState::AwaitGraph(found), ExecuteEvent::Graph(r)) => match r {
                Err(e) => fail(e.context("failed to build dependency graph")),
                Ok(_) => {
                    let used = text::cat("using ", found.id.to_text().as_str());
                    ExecuteStep {
                        state: ExecuteState::AwaitLinked(found),
                        used: Some(used),
                        action: ExecuteAction::DownloadAndLink,
                    }
                },
            },
            (ExecuteState::AwaitLinked(found), ExecuteEvent::Linked(r)) => on_work(
                r,
                "failed to download and link dependencies",
                ExecuteState::AwaitManifest(found),
                ExecuteAction::ReadManifest,
            ),
            (ExecuteState::AwaitManifest(found), ExecuteEvent::Manifest(r)) => on_work(
                r,
                "failed to deserialize manifest",
                ExecuteState::AwaitEngines(found),
                ExecuteAction::FindEngines,
            ),
            (ExecuteState::AwaitEngines(found), ExecuteEvent::Engines(r)) => match r {
                Err(e) => fail(e),
                Ok(engines) => match compatible_runtime(found.kind, &engines) {
                    Err(e) => fail(e),
                    Ok(runtime) => go(
                        ExecuteState::AwaitRun,
                        ExecuteAction::Run { runtime, bin_path: found.bin_path },
                    ),
                },
            },
            (ExecuteState::AwaitRun, ExecuteEvent::Ran(r)) => match r {
                Err(RunFailure::CreateFile(e)) => fail(e.context("failed to create tempfile")),
                Err(RunFailure::WriteFile(e)) => fail(e.context("failed to write to tempfile")),
                Err(RunFailure::CurrentDir(e)) => fail(
                    e.context("failed to get current directory"),
                ),
                Err(RunFailure::Run(e)) => fail(e.context("failed to run script")),
                Ok(code) => go(ExecuteState::Finished, ExecuteAction::Exit(exit_code(code))),
            },
            _ => go(ExecuteState::Finished, ExecuteAction::ReadConfig),
        }
    }
}

// What holds of every execution.

/// How many steps are left at most.
pub open spec fn steps_left(s: ExecuteState) -> nat {
    match s {
        ExecuteState::AwaitConfig => 12,
        ExecuteState::AwaitRefresh => 11,
        ExecuteState::AwaitResolved => 10,
        ExecuteState::AwaitTempDir(_) => 9,
        ExecuteState::AwaitIndexFile(_, _) => 8,
        ExecuteState::AwaitDownload(_) => 7,
        ExecuteState::AwaitWritten(_) => 6,
        ExecuteState::AwaitGraph(_) => 5,
        ExecuteState::AwaitLinked(_) => 4,
        ExecuteState::AwaitManifest(_) => 3,
        ExecuteState::AwaitEngines(_) => 2,
        ExecuteState::AwaitRun => 1,
        ExecuteState::Finished => 0,
    }
}

/// An execution ends, with an error or an exit code.
pub proof fn execution_ends(
    cmd: ExecuteCommand,
    project: Project,
    s: ExecuteState,
    e: ExecuteEvent,
    out: ExecuteStep,
)
    requires
        awaits(s, e),
        is_step(cmd, project, s, e, out),
    ensures
        steps_left(out.state) < steps_left(s),
        out.state == ExecuteState::Finished <==> out.action is Fail || out.action is Exit,
{
}

/// Whether the event is what the action asks for.
pub open spec fn answers(a: ExecuteAction, e: ExecuteEvent) -> bool {
    match a {
        ExecuteAction::ReadConfig => e is Config,
        ExecuteAction::Refresh(_) => e is Refreshed,
        ExecuteAction::Resolve(_) => e is Resolved,
        ExecuteAction::MakeTempDir => e is TempDir,
        ExecuteAction::ReadIndexFile(_) => e is IndexFile,
        ExecuteAction::Download => e is Downloaded,
        ExecuteAction::WritePackage => e is Written,
        ExecuteAction::BuildGraph => e is Graph,
        ExecuteAction::DownloadAndLink => e is Linked,
        ExecuteAction::ReadManifest => e is Manifest,
        ExecuteAction::FindEngines => e is Engines,
        ExecuteAction::Run { .. } => e is Ran,
        ExecuteAction::Exit(_) => false,
        ExecuteAction::Fail(_) => false,
    }
}

/// Whoever does what a step asks for, and answers with what came of it, can take
/// the next step.
pub proof fn answers_are_awaited(
    cmd: ExecuteCommand,
    project: Project,
    s: ExecuteState,
    e: ExecuteEvent,
    out: ExecuteStep,
    next: ExecuteEvent,
)
    requires
        awaits(s, e),
        is_step(cmd, project, s, e, out),
        answers(out.action, next),
    ensures
        awaits(out.state, next),
{
}

/// The package that a state is about.
pub open spec fn found_of(s: ExecuteState) -> Option<Found> {
    match s {
        ExecuteState::AwaitDownload(f) => Some(f),
        ExecuteState::AwaitWritten(f) => Some(f),
        ExecuteState::AwaitGraph(f) => Some(f),
        ExecuteState::AwaitLinked(f) => Some(f),
        ExecuteState::AwaitManifest(f) => Some(f),
        ExecuteState::AwaitEngines(f) => Some(f),
        _ => None,
    }
}

/// The package that was found stays the one that is executed.
pub proof fn package_stays_the_same(
    cmd: ExecuteCommand,
    project: Project,
    s: ExecuteState,
    e: ExecuteEvent,
    out: ExecuteStep,
)
    requires
        awaits(s, e),
        is_step(cmd, project, s, e, out),
        found_of(s) is Some,
        found_of(out.state) is Some,
    ensures
        found_of(out.state) == found_of(s),
{
}

/// What is executed is the package that was asked for, in the highest version
/// that was found for it, as the index describes that version.
pub proof fn asked_package_is_executed(
    cmd: ExecuteCommand,
    project: Project,
    version: String,
    own: Project,
    entries: Vec<IndexEntry>,
    out: ExecuteStep,
    found: Found,
)
    requires
        is_step(
            cmd,
            project,
            ExecuteState::AwaitIndexFile(version, own),
            ExecuteEvent::IndexFile(Ok(Some(entries))),
            out,
        ),
        out.state == ExecuteState::AwaitDownload(found),
    ensures
        found.id.name == cmd.package.0,
        found.id.version_id == version,
        entry(entries@, version@) matches Some(e) && e.kind == found.kind && e.bin_path == Some(
            found.bin_path,
        ),
{
}

} // verus!
