//! A publication, step by step: which work is done next, and what comes of it.

use super::errors::{export_name, Export, PublishError, PublishStage};
use super::included::{check_included, included_notices, is_verdict, Rules};
use super::luau::{can_read, is_readable, luau_errors, parse_luau};
use super::notices::Notice;
use super::paths::{
    any_starts_with, file_name_of, insert_path, part_views, path_views, single, with_path,
    FilePath, Part,
};
use super::summary::{summary, summary_lines};
use crate::failure::Failure;
use crate::git_url::GitUrl;
use crate::keyed::{entry, find};
use crate::project::{
    is_roblox, Dependency, DependencySpecifiers, DependencyType, GraphNode, Index, Lockfile,
    Manifest, Project, SpecifierView, Target, TargetKind, VersionTypeOrReq, DEFAULT_INDEX_NAME,
    MANIFEST_FILE_NAME,
};
use crate::relative::{first_component, first_part, FirstPart, FirstPartView};
use crate::search;
use crate::text;
use crate::version::{parse_requirement, parsed_requirement, version_text, Version, VersionReq};
use vstd::prelude::*;

verus! {

/// What the user is asked before a package is published.
pub const CONFIRM_QUESTION: &'static str = "is this information correct?";

/// The file that a dry run writes.
pub const TARBALL_NAME: &'static str = "package.tar.gz";

/// Publishes a package.
#[derive(Debug)]
pub struct PublishCommand {
    /// Whether to output a tarball instead of publishing.
    pub dry_run: bool,
    /// Agree to all prompts.
    pub yes: bool,
    /// The index to publish to.
    pub index: String,
    /// Whether to skip syntax validation.
    pub skip_validation: bool,
}

/// What is known of a package that is being published.
#[derive(Debug)]
pub struct Draft {
    /// The manifest, changed as it will be published.
    pub manifest: Manifest,
    /// The files of the package.
    pub paths: Vec<FilePath>,
    /// The files that are built, as they are shown.
    pub build_shown: Vec<String>,
}

/// How reading a file went.
#[derive(Debug)]
pub enum ReadOutcome {
    Contents(String),
    NotFound,
    IsDirectory,
    Failed(Failure),
}

/// How adding a file to the archive went wrong.
#[derive(Debug)]
pub enum AppendFailure {
    Open(Failure),
    Append(Failure),
}

/// How reading the manifest of a workspace member went.
#[derive(Debug)]
pub enum MemberOutcome {
    ReadFailed(Failure),
    ParseFailed(Failure),
    Manifest { version: Version, indices: Vec<Index>, target: TargetKind },
}

/// The last things that are done to an archive.
#[derive(Debug, PartialEq, Eq, Clone, Copy, Structural)]
pub enum PackStage {
    TempManifest,
    SerializeManifest,
    WriteTempManifest,
    RewindTempManifest,
    AppendManifest,
    FinishArchive,
}

/// Where a publication stands.
#[derive(Debug)]
pub enum PublishState {
    AwaitManifest,
    AwaitLockfile(Manifest),
    /// The types of the direct dependencies are known.
    AwaitEngines(Manifest, Vec<DependencyType>),
    /// So many of the direct dependencies were looked at.
    Inspect(Manifest, Vec<DependencyType>, usize),
    AwaitDependency(Manifest, Vec<DependencyType>, usize),
    AwaitPackageDir(Manifest),
    AwaitFiles(Manifest),
    Exports(Draft, Export),
    AwaitExport(Draft, Export),
    AwaitExportPath(Draft, Export, String),
    /// The file of an export has yet to be parsed.
    AwaitExportErrors(Draft, Export, FilePath),
    BuildFiles(Draft, usize),
    AwaitBuildFile(Draft, usize),
    Scripts(Draft, usize),
    AwaitScript(Draft, usize),
    AwaitScriptPath(Draft, usize, String),
    /// The file of a script has yet to be parsed.
    AwaitScriptErrors(Draft, usize, FilePath),
    Files(Draft, usize),
    AwaitFile(Draft, usize),
    AwaitAppend(Draft, usize),
    Dependencies(Draft, usize),
    AwaitWorkspace(Draft, usize),
    AwaitMember(Draft, usize),
    Summary(Draft),
    AwaitConfirm(Draft),
    AwaitArchive(Draft),
    /// The archive has this size; the index is at this URL.
    AwaitRefresh(usize, GitUrl),
    AwaitConfig(usize, GitUrl),
    AwaitTarball,
    AwaitResponse,
    Finished,
}

/// What is to be done next.
#[derive(Debug)]
pub enum PublishAction {
    /// Nothing: the next step can follow.
    Proceed,
    ReadManifest,
    /// Read the lockfile, and see whether it is up to date.
    ReadLockfile,
    FindEngines,
    /// Start to look up the targets of all direct dependencies.
    InspectDependencies,
    /// Wait for one of the targets.
    AwaitDependency,
    CanonicalizePackage,
    ListFiles,
    ReadFile(String),
    CanonicalizeFile(String),
    /// Parse this code, on which the parser may panic.
    ParseLuau(String),
    StatBuildFile(String),
    /// Look at the file with this index.
    StatFile(usize),
    AppendFile(usize),
    /// Find the workspace member that the dependency with this index names.
    ResolveWorkspace(usize),
    /// Read the manifest of the member in this directory of the workspace.
    ReadMember(String),
    Confirm,
    /// Put the manifest into the archive, and finish it.
    Pack,
    Refresh(GitUrl),
    ReadConfig(GitUrl),
    WriteTarball,
    /// Send the archive to this address, with this token.
    Upload { url: String, token: Option<String> },
    Done(Result<(), PublishError>),
}

/// What came of the work.
#[derive(Debug)]
pub enum PublishEvent {
    Proceed,
    Manifest(Result<Manifest, Failure>),
    Lockfile(Result<Option<Lockfile>, Failure>),
    Engines(Result<(), Failure>),
    /// Whether the target of the direct dependency with this index lacks build files.
    DependencyTarget(usize, Result<bool, Failure>),
    PackageDir(Result<(), Failure>),
    Files(Result<Vec<FilePath>, Failure>),
    FileRead(ReadOutcome),
    /// The path of the file within the package.
    Canonical(Result<FilePath, Failure>),
    /// The errors that the parser found.
    Parsed(Vec<String>),
    BuildFile { exists: bool, is_file: bool, parts: Vec<Part> },
    File { exists: bool, is_file: bool, shown: String },
    Appended(Result<(), AppendFailure>),
    /// The directories of the workspace members that were found, in ascending
    /// order of their versions.
    Workspace(Result<Vec<String>, Failure>),
    Member(MemberOutcome),
    Confirmed(Result<bool, Failure>),
    /// The size of the archive.
    Archived(Result<usize, (PackStage, Failure)>),
    Refreshed(Result<(), Failure>),
    Config(Result<IndexConfig, Failure>),
    Written(Result<(), Failure>),
    Response(Result<Reply, Failure>),
}

/// What an index says of itself.
#[derive(Debug)]
pub struct IndexConfig {
    pub max_archive_size: usize,
    pub api: String,
}

/// What an index answered.
#[derive(Debug)]
pub struct Reply {
    pub status: u16,
    pub text: Result<String, Failure>,
}

/// The outcome of a step.
#[derive(Debug)]
pub struct PublishStep {
    pub state: PublishState,
    pub said: Vec<Notice>,
    pub action: PublishAction,
}

/// The step leads to that state and action, with these words.
pub open spec fn goes(
    out: PublishStep,
    said: Seq<Notice>,
    state: PublishState,
    action: PublishAction,
) -> bool {
    out.said@ == said && out.state == state && out.action == action
}

/// The step ends the publication, with these words and that result.
pub open spec fn ends(out: PublishStep, said: Seq<Notice>, r: Result<(), PublishError>) -> bool {
    goes(out, said, PublishState::Finished, PublishAction::Done(r))
}

/// The step ends the publication with that error and no other words.
pub open spec fn fails(out: PublishStep, e: PublishError) -> bool {
    ends(out, Seq::empty(), Err(e))
}

fn go(state: PublishState, action: PublishAction) -> (out: PublishStep)
    ensures
        goes(out, Seq::empty(), state, action),
{
    PublishStep { state, said: Vec::new(), action }
}

fn fail(e: PublishError) -> (out: PublishStep)
    ensures
        fails(out, e),
{
    go(PublishState::Finished, PublishAction::Done(Err(e)))
}

fn fail_outside(stage: PublishStage, cause: Failure) -> (out: PublishStep)
    ensures
        fails(out, PublishError::Outside(stage, cause)),
{
    fail(PublishError::Outside(stage, cause))
}

// The manifest.

/// Whether the target exports anything.
pub open spec fn has_exports(t: Target) -> bool {
    ||| t.lib_path is Some
    ||| t.bin_path is Some
    ||| t.scripts is Some && t.scripts->0@.len() > 0
}

/// Whether there is anything to build.
pub open spec fn has_build_files(t: Target) -> bool {
    t.build_files is Some && t.build_files->0@.len() > 0
}

/// The step once the manifest was read.
pub open spec fn after_manifest(read: Result<Manifest, Failure>, out: PublishStep) -> bool {
    match read {
        Err(cause) => fails(out, PublishError::Outside(PublishStage::ReadManifest, cause)),
        Ok(m) => {
            let title = Notice::NowPublishing { name: m.name, target: m.target.shown };
            if m.private {
                ends(out, seq![title, Notice::Private], Ok(()))
            } else if !has_exports(m.target) {
                ends(out, seq![title], Err(PublishError::NoExports))
            } else if !is_roblox(m.target.kind) {
                goes(
                    out,
                    seq![title],
                    PublishState::AwaitPackageDir(m),
                    PublishAction::CanonicalizePackage,
                )
            } else if !has_build_files(m.target) {
                ends(out, seq![title], Err(PublishError::NoBuildFiles))
            } else {
                goes(out, seq![title], PublishState::AwaitLockfile(m), PublishAction::ReadLockfile)
            }
        },
    }
}

fn on_manifest(read: Result<Manifest, Failure>) -> (out: PublishStep)
    ensures
        after_manifest(read, out),
{
    let m = match read {
        Err(cause) => {
            return fail_outside(PublishStage::ReadManifest, cause);
        },
        Ok(m) => m,
    };
    let mut said: Vec<Notice> = Vec::new();
    said.push(Notice::NowPublishing { name: m.name.clone(), target: m.target.shown.clone() });
    let some_scripts = match &m.target.scripts {
        Some(s) => s.len() > 0,
        None => false,
    };
    let some_build_files = match &m.target.build_files {
        Some(b) => b.len() > 0,
        None => false,
    };
    let title = Ghost(Notice::NowPublishing { name: m.name, target: m.target.shown });
    assert(said@ =~= seq![title@]);
    if m.private {
        said.push(Notice::Private);
        assert(said@ =~= seq![title@, Notice::Private]);
        PublishStep {
            state: PublishState::Finished,
            said,
            action: PublishAction::Done(Ok(())),
        }
    } else if m.target.lib_path.is_none() && m.target.bin_path.is_none() && !some_scripts {
        PublishStep {
            state: PublishState::Finished,
            said,
            action: PublishAction::Done(Err(PublishError::NoExports)),
        }
    } else if !m.target.kind.is_roblox() {
        PublishStep {
            state: PublishState::AwaitPackageDir(m),
            said,
            action: PublishAction::CanonicalizePackage,
        }
    } else if !some_build_files {
        PublishStep {
            state: PublishState::Finished,
            said,
            action: PublishAction::Done(Err(PublishError::NoBuildFiles)),
        }
    } else {
        PublishStep {
            state: PublishState::AwaitLockfile(m),
            said,
            action: PublishAction::ReadLockfile,
        }
    }
}

// What a Roblox package depends on.

/// The types of the direct dependencies, in the order of the graph.
pub open spec fn direct_types(graph: Seq<GraphNode>) -> Seq<DependencyType>
    decreases graph.len(),
{
    if graph.len() == 0 {
        Seq::empty()
    } else {
        let rest = direct_types(graph.drop_last());
        match graph.last().direct {
            Some(d) => rest.push(d.ty),
            None => rest,
        }
    }
}

fn types_of_direct(graph: &Vec<GraphNode>) -> (r: Vec<DependencyType>)
    ensures
        r@ == direct_types(graph@),
{
    let mut r: Vec<DependencyType> = Vec::new();
    let mut i: usize = 0;
    while i < graph.len()
        invariant
            i <= graph.len(),
            r@ == direct_types(graph@.take(i as int)),
        decreases graph.len() - i,
    {
        assert(graph@.take(i + 1).drop_last() =~= graph@.take(i as int));
        if let Some(d) = &graph[i].direct {
            r.push(d.ty);
        }
        i = i + 1;
    }
    assert(graph@.take(i as int) =~= graph@);
    r
}

/// The step once the lockfile was looked at.
pub open spec fn after_lockfile(
    m: Manifest,
    read: Result<Option<Lockfile>, Failure>,
    out: PublishStep,
) -> bool {
    match read {
        Err(cause) => fails(out, PublishError::Outside(PublishStage::ReadLockfile, cause)),
        Ok(None) => fails(out, PublishError::OutdatedLockfile),
        Ok(Some(lockfile)) => {
            &&& out.said@ == Seq::<Notice>::empty()
            &&& out.action == PublishAction::FindEngines
            &&& out.state matches PublishState::AwaitEngines(m2, types)
            &&& m2 == m
            &&& types@ == direct_types(lockfile.graph@)
        },
    }
}

fn on_lockfile(m: Manifest, read: Result<Option<Lockfile>, Failure>) -> (out: PublishStep)
    ensures
        after_lockfile(m, read, out),
{
    match read {
        Err(cause) => fail_outside(PublishStage::ReadLockfile, cause),
        Ok(None) => fail(PublishError::OutdatedLockfile),
        Ok(Some(lockfile)) => go(
            PublishState::AwaitEngines(m, types_of_direct(&lockfile.graph)),
            PublishAction::FindEngines,
        ),
    }
}

/// The step that waits for the next target, if there is one left.
pub open spec fn after_inspect(
    m: Manifest,
    types: Vec<DependencyType>,
    seen: usize,
    out: PublishStep,
) -> bool {
    if seen < types@.len() {
        goes(
            out,
            Seq::empty(),
            PublishState::AwaitDependency(m, types, seen),
            PublishAction::AwaitDependency,
        )
    } else {
        goes(
            out,
            Seq::empty(),
            PublishState::AwaitPackageDir(m),
            PublishAction::CanonicalizePackage,
        )
    }
}

/// The step once the target of a direct dependency is known: only for
/// development may it lack build files.
pub open spec fn after_dependency_target(
    m: Manifest,
    types: Vec<DependencyType>,
    seen: usize,
    i: usize,
    read: Result<bool, Failure>,
    out: PublishStep,
) -> bool {
    match read {
        Err(cause) => fails(out, PublishError::Outside(PublishStage::DependencyTarget, cause)),
        Ok(lacks_build_files) => if lacks_build_files && types@[i as int] != DependencyType::Dev {
            fails(out, PublishError::NonRobloxDependency)
        } else {
            &&& out.said@ == Seq::<Notice>::empty()
            &&& out.action == PublishAction::Proceed
            &&& out.state matches PublishState::Inspect(m2, types2, seen2)
            &&& m2 == m
            &&& types2 == types
            &&& seen2 == seen + 1
        },
    }
}

fn on_dependency_target(
    m: Manifest,
    types: Vec<DependencyType>,
    seen: usize,
    i: usize,
    read: Result<bool, Failure>,
) -> (out: PublishStep)
    requires
        i < types.len(),
        seen < types.len(),
    ensures
        after_dependency_target(m, types, seen, i, read, out),
{
    match read {
        Err(cause) => fail_outside(PublishStage::DependencyTarget, cause),
        Ok(lacks_build_files) => {
            if lacks_build_files && types[i] != DependencyType::Dev {
                fail(PublishError::NonRobloxDependency)
            } else {
                go(PublishState::Inspect(m, types, seen + 1), PublishAction::Proceed)
            }
        },
    }
}

// The files.

/// The step once the included files are listed.
pub open spec fn after_files(
    rules: Rules,
    m: Manifest,
    read: Result<Vec<FilePath>, Failure>,
    out: PublishStep,
) -> bool {
    match read {
        Err(cause) => fails(out, PublishError::Outside(PublishStage::ListFiles, cause)),
        Ok(listed) => exists|paths: Vec<FilePath>, verdict: Option<PublishError>|
            #![trigger is_verdict(rules, paths@, verdict)]
            {
                &&& manifest_added(listed@, paths@)
                &&& is_verdict(rules, paths@, verdict)
                &&& out.said@ == included_notices(listed@, paths@)
                &&& match verdict {
                    Some(e) => out.state == PublishState::Finished && out.action
                        == PublishAction::Done(Err(e)),
                    None => {
                        &&& out.action == PublishAction::Proceed
                        &&& out.state matches PublishState::Exports(d, which)
                        &&& which == Export::Lib
                        &&& d.manifest == m
                        &&& d.paths == paths
                        &&& d.build_shown@ == Seq::<String>::empty()
                    },
                }
            },
    }
}

/// The list with the manifest in it, at the end if it had to be added.
pub open spec fn manifest_added(listed: Seq<FilePath>, paths: Seq<FilePath>) -> bool {
    if path_views(listed).contains(single(MANIFEST_FILE_NAME@)) {
        paths == listed
    } else {
        &&& paths.len() == listed.len() + 1
        &&& paths.drop_last() == listed
        &&& paths.last()@ == single(MANIFEST_FILE_NAME@)
        &&& paths.last().text@ == MANIFEST_FILE_NAME@
    }
}

fn on_files(rules: &Rules, m: Manifest, read: Result<Vec<FilePath>, Failure>) -> (out: PublishStep)
    ensures
        after_files(*rules, m, read, out),
{
    match read {
        Err(cause) => fail_outside(PublishStage::ListFiles, cause),
        Ok(listed) => {
            let ghost all = listed@;
            let included = check_included(rules, listed);
            assert(manifest_added(all, included.paths@));
            assert(is_verdict(*rules, included.paths@, included.verdict));
            match included.verdict {
                Some(e) => PublishStep {
                    state: PublishState::Finished,
                    said: included.said,
                    action: PublishAction::Done(Err(e)),
                },
                None => PublishStep {
                    state: PublishState::Exports(
                        Draft { manifest: m, paths: included.paths, build_shown: Vec::new() },
                        Export::Lib,
                    ),
                    said: included.said,
                    action: PublishAction::Proceed,
                },
            }
        },
    }
}

// What is exported.

/// The path that the target exports in that place.
pub open spec fn exported(t: Target, which: Export) -> Option<String> {
    match which {
        Export::Lib => t.lib_path,
        Export::Bin => t.bin_path,
    }
}

/// Where a publication stands once that export is dealt with.
pub open spec fn past_export(which: Export, d: Draft) -> PublishState {
    match which {
        Export::Lib => PublishState::Exports(d, Export::Bin),
        Export::Bin => PublishState::BuildFiles(d, 0),
    }
}

fn leave_export(which: Export, d: Draft) -> (r: PublishState)
    ensures
        r == past_export(which, d),
{
    match which {
        Export::Lib => PublishState::Exports(d, Export::Bin),
        Export::Bin => PublishState::BuildFiles(d, 0),
    }
}

/// The step that takes up an export.
pub open spec fn after_exports(d: Draft, which: Export, out: PublishStep) -> bool {
    match exported(d.manifest.target, which) {
        None => goes(out, Seq::empty(), past_export(which, d), PublishAction::Proceed),
        Some(path) => goes(
            out,
            Seq::empty(),
            PublishState::AwaitExport(d, which),
            PublishAction::ReadFile(path),
        ),
    }
}

fn on_exports(d: Draft, which: Export) -> (out: PublishStep)
    ensures
        after_exports(d, which, out),
{
    let path = match which {
        Export::Lib => d.manifest.target.lib_path.clone(),
        Export::Bin => d.manifest.target.bin_path.clone(),
    };
    match path {
        None => go(leave_export(which, d), PublishAction::Proceed),
        Some(path) => go(PublishState::AwaitExport(d, which), PublishAction::ReadFile(path)),
    }
}

/// The step once the file of an export was read.
pub open spec fn after_export_read(
    d: Draft,
    which: Export,
    read: ReadOutcome,
    out: PublishStep,
) -> bool {
    match read {
        ReadOutcome::NotFound => fails(out, PublishError::ExportMissing(which)),
        ReadOutcome::IsDirectory => fails(out, PublishError::ExportIsDirectory(which)),
        ReadOutcome::Failed(cause) => fails(
            out,
            PublishError::Outside(PublishStage::ReadExport(which), cause),
        ),
        ReadOutcome::Contents(contents) => goes(
            out,
            Seq::empty(),
            PublishState::AwaitExportPath(d, which, contents),
            PublishAction::CanonicalizeFile(exported(d.manifest.target, which)->0),
        ),
    }
}

fn on_export_read(d: Draft, which: Export, read: ReadOutcome) -> (out: PublishStep)
    requires
        exported(d.manifest.target, which) is Some,
    ensures
        after_export_read(d, which, read, out),
{
    match read {
        ReadOutcome::NotFound => fail(PublishError::ExportMissing(which)),
        ReadOutcome::IsDirectory => fail(PublishError::ExportIsDirectory(which)),
        ReadOutcome::Failed(cause) => fail_outside(PublishStage::ReadExport(which), cause),
        ReadOutcome::Contents(contents) => {
            let path = match which {
                Export::Lib => d.manifest.target.lib_path.clone(),
                Export::Bin => d.manifest.target.bin_path.clone(),
            };
            go(
                PublishState::AwaitExportPath(d, which, contents),
                PublishAction::CanonicalizeFile(path.unwrap()),
            )
        },
    }
}

/// A notice that a file is not valid Luau.
pub open spec fn is_luau_notice(n: Notice, file: Seq<char>, errors: Seq<Seq<char>>) -> bool {
    n matches Notice::InvalidLuau { file: f, errors: es } && f@ == file && text::texts(es@)
        == errors
}

/// The manifest with that file among those that are built, if it is for Roblox.
pub open spec fn with_build_file(m: Manifest, first: Seq<char>, m2: Manifest) -> bool {
    if is_roblox(m.target.kind) && m.target.build_files is Some {
        &&& m2.target.build_files is Some
        &&& m2 == (Manifest {
            target: Target { build_files: m2.target.build_files, ..m.target },
            ..m
        })
        &&& text::texts(m2.target.build_files->0@) == search::with_text(
            text::texts(m.target.build_files->0@),
            first,
        )
    } else {
        m2 == m
    }
}

/// Whether that file has yet to be added to those that are built.
pub open spec fn lacks_build_file(m: Manifest, first: Seq<char>) -> bool {
    is_roblox(m.target.kind) && m.target.build_files is Some && !text::texts(
        m.target.build_files->0@,
    ).contains(first)
}

/// The step that takes an export into the package: it lies within the package,
/// and it is published and built.
pub open spec fn after_admission(
    d: Draft,
    which: Export,
    file: FilePath,
    out: PublishStep,
) -> bool {
    let path = exported(d.manifest.target, which)->0;
    match first_part(path@) {
        None => fails(out, PublishError::ExportEmpty(which)),
        Some(FirstPartView::Current) => fails(out, PublishError::ExportOutside(which)),
        Some(FirstPartView::Parent) => fails(out, PublishError::ExportOutside(which)),
        Some(FirstPartView::Normal(first)) => {
            let new_path = !path_views(d.paths@).contains(file@);
            let new_build = lacks_build_file(d.manifest, first);
            &&& out.action == PublishAction::Proceed
            &&& out.said@.len() == (if new_path {
                1int
            } else {
                0
            }) + (if new_build {
                1int
            } else {
                0
            })
            &&& new_path ==> out.said@[0] == (Notice::ExportAdded { export: which, path })
            &&& new_build ==> (out.said@.last() matches Notice::BuildFileAdded { export, file: f }
                && export == which && f@ == first)
            &&& exists|d2: Draft|
                {
                    &&& out.state == #[trigger] past_export(which, d2)
                    &&& d2.paths@ == with_path(d.paths@, file)
                    &&& d2.build_shown == d.build_shown
                    &&& with_build_file(d.manifest, first, d2.manifest)
                }
        },
    }
}

fn admit_export(d: Draft, which: Export, file: FilePath) -> (out: PublishStep)
    requires
        exported(d.manifest.target, which) is Some,
    ensures
        after_admission(d, which, file, out),
{
    let path = match which {
        Export::Lib => d.manifest.target.lib_path.clone(),
        Export::Bin => d.manifest.target.bin_path.clone(),
    };
    let path = path.unwrap();
    let first = match first_component(path.as_str()) {
        None => {
            return fail(PublishError::ExportEmpty(which));
        },
        Some(FirstPart::Current) => {
            return fail(PublishError::ExportOutside(which));
        },
        Some(FirstPart::Parent) => {
            return fail(PublishError::ExportOutside(which));
        },
        Some(FirstPart::Normal(first)) => first,
    };
    let mut said: Vec<Notice> = Vec::new();
    let mut d2 = d;
    if insert_path(&mut d2.paths, file) {
        said.push(Notice::ExportAdded { export: which, path });
    }
    let ghost m = d2.manifest;
    if d2.manifest.target.kind.is_roblox() {
        if let Some(files) = d2.manifest.target.build_files.take() {
            let mut files = files;
            if search::insert_text(&mut files, first.as_str()) {
                said.push(Notice::BuildFileAdded { export: which, file: first });
            }
            d2.manifest.target.build_files = Some(files);
        }
    }
    assert(with_build_file(m, first@, d2.manifest));
    PublishStep { state: leave_export(which, d2), said, action: PublishAction::Proceed }
}

/// Whether a Luau file is accepted, given what is wrong with it.
pub open spec fn luau_judgement(
    cmd: PublishCommand,
    file: Seq<char>,
    errors: Seq<Seq<char>>,
    r: Result<(), Notice>,
) -> bool {
    match r {
        Ok(_) => cmd.skip_validation || errors.len() == 0,
        Err(n) => !cmd.skip_validation && errors.len() > 0 && is_luau_notice(n, file, errors),
    }
}

impl PublishCommand {
    /// Judges a Luau file by what is wrong with it.
    pub fn judge_luau(&self, name: &str, errors: Vec<String>) -> (r: Result<(), Notice>)
        ensures
            luau_judgement(*self, name@, text::texts(errors@), r),
    {
        if self.skip_validation || errors.len() == 0 {
            Ok(())
        } else {
            Err(Notice::InvalidLuau { file: name.to_owned(), errors })
        }
    }

    /// Checks that a file is valid Luau, unless validation is skipped. Code that the
    /// parser might panic on is left out.
    pub fn validate_luau_file(&self, name: &str, contents: &str) -> (r: Result<(), Notice>)
        requires
            self.skip_validation || is_readable(contents@),
        ensures
            luau_judgement(*self, name@, luau_errors(contents@), r),
    {
        if self.skip_validation {
            return Ok(());
        }
        self.judge_luau(name, parse_luau(contents))
    }

    /// Checks that a file is valid Luau, unless validation is skipped. Nothing is returned
    /// of code that the parser might panic on; what is wrong with it is for `judge_luau`
    /// to judge.
    pub fn check_luau_file(&self, name: &str, contents: &str) -> (r: Option<Result<(), Notice>>)
        ensures
            match r {
                Some(r) => (self.skip_validation || is_readable(contents@)) && luau_judgement(
                    *self,
                    name@,
                    luau_errors(contents@),
                    r,
                ),
                None => !self.skip_validation && !is_readable(contents@),
            },
    {
        if self.skip_validation || can_read(contents) {
            Some(self.validate_luau_file(name, contents))
        } else {
            None
        }
    }
}

/// The step that takes an export into the package unless something is wrong with its code.
pub open spec fn after_export_errors(
    cmd: PublishCommand,
    d: Draft,
    which: Export,
    file: FilePath,
    errors: Seq<Seq<char>>,
    out: PublishStep,
) -> bool {
    if !cmd.skip_validation && errors.len() > 0 {
        stops_at_luau(out, "file at "@ + export_name(which), errors)
    } else {
        after_admission(d, which, file, out)
    }
}

/// The step once it is known where the file of an export lies. Code that the parser might
/// panic on has yet to be parsed.
pub open spec fn after_export_path(
    cmd: PublishCommand,
    d: Draft,
    which: Export,
    contents: String,
    found: Result<FilePath, Failure>,
    out: PublishStep,
) -> bool {
    match found {
        Err(cause) => fails(
            out,
            PublishError::Outside(PublishStage::CanonicalizeExport(which), cause),
        ),
        Ok(file) => if !cmd.skip_validation && !is_readable(contents@) {
            goes(
                out,
                Seq::empty(),
                PublishState::AwaitExportErrors(d, which, file),
                PublishAction::ParseLuau(contents),
            )
        } else {
            after_export_errors(cmd, d, which, file, luau_errors(contents@), out)
        },
    }
}

/// The step ends the publication because a file is not valid Luau.
pub open spec fn stops_at_luau(
    out: PublishStep,
    file: Seq<char>,
    errors: Seq<Seq<char>>,
) -> bool {
    &&& out.said@.len() == 1
    &&& is_luau_notice(out.said@[0], file, errors)
    &&& out.state == PublishState::Finished
    &&& out.action == PublishAction::Done(Err(PublishError::InvalidLuau))
}

fn stop_at_luau(notice: Notice) -> (out: PublishStep)
    ensures
        ends(out, seq![notice], Err(PublishError::InvalidLuau)),
{
    let mut said: Vec<Notice> = Vec::new();
    said.push(notice);
    assert(said@ =~= seq![notice]);
    PublishStep {
        state: PublishState::Finished,
        said,
        action: PublishAction::Done(Err(PublishError::InvalidLuau)),
    }
}

fn on_export_path(
    cmd: &PublishCommand,
    d: Draft,
    which: Export,
    contents: String,
    found: Result<FilePath, Failure>,
) -> (out: PublishStep)
    requires
        exported(d.manifest.target, which) is Some,
    ensures
        after_export_path(*cmd, d, which, contents, found, out),
{
    match found {
        Err(cause) => fail_outside(PublishStage::CanonicalizeExport(which), cause),
        Ok(file) => {
            let name = text::cat("file at ", which.name());
            match cmd.check_luau_file(name.as_str(), contents.as_str()) {
                None => go(
                    PublishState::AwaitExportErrors(d, which, file),
                    PublishAction::ParseLuau(contents),
                ),
                Some(Err(notice)) => stop_at_luau(notice),
                Some(Ok(_)) => admit_export(d, which, file),
            }
        },
    }
}

fn on_export_errors(
    cmd: &PublishCommand,
    d: Draft,
    which: Export,
    file: FilePath,
    errors: Vec<String>,
) -> (out: PublishStep)
    requires
        exported(d.manifest.target, which) is Some,
    ensures
        after_export_errors(*cmd, d, which, file, text::texts(errors@), out),
{
    let name = text::cat("file at ", which.name());
    match cmd.judge_luau(name.as_str(), errors) {
        Err(notice) => stop_at_luau(notice),
        Ok(_) => admit_export(d, which, file),
    }
}

// What is built.

/// The step that takes up a file that is built.
pub open spec fn after_build_files(d: Draft, i: usize, out: PublishStep) -> bool {
    if !is_roblox(d.manifest.target.kind) || d.manifest.target.build_files is None || i
        >= d.manifest.target.build_files->0@.len() {
        goes(out, Seq::empty(), PublishState::Scripts(d, 0), PublishAction::Proceed)
    } else {
        let name = d.manifest.target.build_files->0@[i as int];
        if text::same_ignoring_case(name@, MANIFEST_FILE_NAME@) {
            &&& out.said@ == seq![Notice::ManifestInBuildFiles]
            &&& out.action == PublishAction::Proceed
            &&& out.state matches PublishState::BuildFiles(d2, k)
            &&& d2 == d
            &&& k == i + 1
        } else {
            goes(
                out,
                Seq::empty(),
                PublishState::AwaitBuildFile(d, i),
                PublishAction::StatBuildFile(name),
            )
        }
    }
}

fn on_build_files(d: Draft, i: usize) -> (out: PublishStep)
    ensures
        after_build_files(d, i, out),
{
    if !d.manifest.target.kind.is_roblox() {
        return go(PublishState::Scripts(d, 0), PublishAction::Proceed);
    }
    let name = match &d.manifest.target.build_files {
        None => None,
        Some(files) => {
            if i < files.len() {
                Some(files[i].clone())
            } else {
                None
            }
        },
    };
    match name {
        None => go(PublishState::Scripts(d, 0), PublishAction::Proceed),
        Some(name) => {
            if text::eq_ignore_ascii_case(name.as_str(), MANIFEST_FILE_NAME) {
                let mut said: Vec<Notice> = Vec::new();
                said.push(Notice::ManifestInBuildFiles);
                assert(said@ =~= seq![Notice::ManifestInBuildFiles]);
                PublishStep {
                    state: PublishState::BuildFiles(d, i + 1),
                    said,
                    action: PublishAction::Proceed,
                }
            } else {
                go(PublishState::AwaitBuildFile(d, i), PublishAction::StatBuildFile(name))
            }
        },
    }
}

/// The step once a file that is built was looked at.
pub open spec fn after_build_file(
    d: Draft,
    i: usize,
    exists: bool,
    is_file: bool,
    parts: Vec<Part>,
    out: PublishStep,
) -> bool {
    let name = d.manifest.target.build_files->0@[i as int];
    if !exists {
        fails(out, PublishError::BuildFileMissing(name))
    } else if !is_included(d.paths@, parts@) {
        fails(out, PublishError::BuildFileNotIncluded(name))
    } else {
        &&& out.said@ == Seq::<Notice>::empty()
        &&& out.action == PublishAction::Proceed
        &&& out.state matches PublishState::BuildFiles(d2, k)
        &&& k == i + 1
        &&& d2 == (Draft { build_shown: d2.build_shown, ..d })
        &&& text::texts(d2.build_shown@) == text::texts(d.build_shown@).push(
            if is_file {
                name@
            } else {
                name@ + "/*"@
            },
        )
    }
}

/// Whether one of the files lies under the path.
pub open spec fn is_included(paths: Seq<FilePath>, parts: Seq<Part>) -> bool {
    exists|i: int| 0 <= i < paths.len() && part_views(parts).is_prefix_of(#[trigger] paths[i]@)
}

fn on_build_file(d: Draft, i: usize, exists: bool, is_file: bool, parts: Vec<Part>) -> (out:
    PublishStep)
    requires
        d.manifest.target.build_files is Some,
        i < d.manifest.target.build_files->0.len(),
    ensures
        after_build_file(d, i, exists, is_file, parts, out),
{
    let name = match &d.manifest.target.build_files {
        Some(files) => files[i].clone(),
        None => String::new(),
    };
    if !exists {
        return fail(PublishError::BuildFileMissing(name));
    }
    if !any_starts_with(&d.paths, &parts) {
        return fail(PublishError::BuildFileNotIncluded(name));
    }
    let mut d2 = d;
    let shown = if is_file {
        name
    } else {
        text::cat(name.as_str(), "/*")
    };
    let ghost prior = d2.build_shown@;
    d2.build_shown.push(shown);
    assert(text::texts(d2.build_shown@) =~= text::texts(prior).push(shown@));
    go(PublishState::BuildFiles(d2, i + 1), PublishAction::Proceed)
}

// The scripts.

/// The step that takes up a script.
pub open spec fn after_scripts(d: Draft, i: usize, out: PublishStep) -> bool {
    if d.manifest.target.scripts is None || i >= d.manifest.target.scripts->0@.len() {
        goes(out, Seq::empty(), PublishState::Files(d, 0), PublishAction::Proceed)
    } else {
        goes(
            out,
            Seq::empty(),
            PublishState::AwaitScript(d, i),
            PublishAction::ReadFile(d.manifest.target.scripts->0@[i as int].path),
        )
    }
}

fn on_scripts(d: Draft, i: usize) -> (out: PublishStep)
    ensures
        after_scripts(d, i, out),
{
    let path = match &d.manifest.target.scripts {
        None => None,
        Some(scripts) => {
            if i < scripts.len() {
                Some(scripts[i].path.clone())
            } else {
                None
            }
        },
    };
    match path {
        None => go(PublishState::Files(d, 0), PublishAction::Proceed),
        Some(path) => go(PublishState::AwaitScript(d, i), PublishAction::ReadFile(path)),
    }
}

/// The step once the file of a script was read.
pub open spec fn after_script_read(
    d: Draft,
    i: usize,
    read: ReadOutcome,
    out: PublishStep,
) -> bool {
    let script = d.manifest.target.scripts->0@[i as int];
    match read {
        ReadOutcome::NotFound => fails(out, PublishError::ScriptMissing(script.name)),
        ReadOutcome::IsDirectory => fails(out, PublishError::ScriptIsDirectory(script.name)),
        ReadOutcome::Failed(cause) => fails(
            out,
            PublishError::Outside(PublishStage::ReadScript(script.name), cause),
        ),
        ReadOutcome::Contents(contents) => goes(
            out,
            Seq::empty(),
            PublishState::AwaitScriptPath(d, i, contents),
            PublishAction::CanonicalizeFile(script.path),
        ),
    }
}

fn script_at(d: &Draft, i: usize) -> (r: (String, String))
    requires
        d.manifest.target.scripts is Some,
        i < d.manifest.target.scripts->0.len(),
    ensures
        r.0 == d.manifest.target.scripts->0@[i as int].name,
        r.1 == d.manifest.target.scripts->0@[i as int].path,
{
    match &d.manifest.target.scripts {
        Some(scripts) => (scripts[i].name.clone(), scripts[i].path.clone()),
        None => (String::new(), String::new()),
    }
}

fn on_script_read(d: Draft, i: usize, read: ReadOutcome) -> (out: PublishStep)
    requires
        d.manifest.target.scripts is Some,
        i < d.manifest.target.scripts->0.len(),
    ensures
        after_script_read(d, i, read, out),
{
    let (name, path) = script_at(&d, i);
    match read {
        ReadOutcome::NotFound => fail(PublishError::ScriptMissing(name)),
        ReadOutcome::IsDirectory => fail(PublishError::ScriptIsDirectory(name)),
        ReadOutcome::Failed(cause) => fail_outside(PublishStage::ReadScript(name), cause),
        ReadOutcome::Contents(contents) => go(
            PublishState::AwaitScriptPath(d, i, contents),
            PublishAction::CanonicalizeFile(path),
        ),
    }
}

/// The step that takes a script into the package.
pub open spec fn after_script_admission(
    d: Draft,
    i: usize,
    file: FilePath,
    out: PublishStep,
) -> bool {
    let script = d.manifest.target.scripts->0@[i as int];
    &&& out.said@ == (if path_views(d.paths@).contains(file@) {
        Seq::empty()
    } else {
        seq![Notice::ScriptAdded { name: script.name, path: script.path }]
    })
    &&& out.action == PublishAction::Proceed
    &&& out.state matches PublishState::Scripts(d2, k)
    &&& k == i + 1
    &&& d2 == (Draft { paths: d2.paths, ..d })
    &&& d2.paths@ == with_path(d.paths@, file)
}

/// The step that takes a script into the package unless something is wrong with its code.
pub open spec fn after_script_errors(
    cmd: PublishCommand,
    d: Draft,
    i: usize,
    file: FilePath,
    errors: Seq<Seq<char>>,
    out: PublishStep,
) -> bool {
    if !cmd.skip_validation && errors.len() > 0 {
        let script = d.manifest.target.scripts->0@[i as int];
        stops_at_luau(out, "the `"@ + script.name@ + "` script"@, errors)
    } else {
        after_script_admission(d, i, file, out)
    }
}

/// The step once it is known where the file of a script lies. Code that the parser might
/// panic on has yet to be parsed.
pub open spec fn after_script_path(
    cmd: PublishCommand,
    d: Draft,
    i: usize,
    contents: String,
    found: Result<FilePath, Failure>,
    out: PublishStep,
) -> bool {
    let script = d.manifest.target.scripts->0@[i as int];
    match found {
        Err(cause) => fails(
            out,
            PublishError::Outside(PublishStage::CanonicalizeScript(script.name), cause),
        ),
        Ok(file) => if !cmd.skip_validation && !is_readable(contents@) {
            goes(
                out,
                Seq::empty(),
                PublishState::AwaitScriptErrors(d, i, file),
                PublishAction::ParseLuau(contents),
            )
        } else {
            after_script_errors(cmd, d, i, file, luau_errors(contents@), out)
        },
    }
}

fn script_label(name: &str) -> (r: String)
    ensures
        r@ == "the `"@ + name@ + "` script"@,
{
    text::cat3("the `", name, "` script")
}

fn admit_script(d: Draft, i: usize, file: FilePath) -> (out: PublishStep)
    requires
        d.manifest.target.scripts is Some,
        i < d.manifest.target.scripts->0.len(),
    ensures
        after_script_admission(d, i, file, out),
{
    let (name, path) = script_at(&d, i);
    let mut said: Vec<Notice> = Vec::new();
    let mut d2 = d;
    if insert_path(&mut d2.paths, file) {
        said.push(Notice::ScriptAdded { name, path });
    }
    assert(!path_views(d.paths@).contains(file@) ==> said@
        =~= seq![Notice::ScriptAdded { name, path }]);
    PublishStep { state: PublishState::Scripts(d2, i + 1), said, action: PublishAction::Proceed }
}

fn on_script_path(
    cmd: &PublishCommand,
    d: Draft,
    i: usize,
    contents: String,
    found: Result<FilePath, Failure>,
) -> (out: PublishStep)
    requires
        d.manifest.target.scripts is Some,
        i < d.manifest.target.scripts->0.len(),
    ensures
        after_script_path(*cmd, d, i, contents, found, out),
{
    let (name, _) = script_at(&d, i);
    let file = match found {
        Err(cause) => {
            return fail_outside(PublishStage::CanonicalizeScript(name), cause);
        },
        Ok(file) => file,
    };
    let label = script_label(name.as_str());
    match cmd.check_luau_file(label.as_str(), contents.as_str()) {
        None => go(
            PublishState::AwaitScriptErrors(d, i, file),
            PublishAction::ParseLuau(contents),
        ),
        Some(Err(notice)) => stop_at_luau(notice),
        Some(Ok(_)) => admit_script(d, i, file),
    }
}

fn on_script_errors(
    cmd: &PublishCommand,
    d: Draft,
    i: usize,
    file: FilePath,
    errors: Vec<String>,
) -> (out: PublishStep)
    requires
        d.manifest.target.scripts is Some,
        i < d.manifest.target.scripts->0.len(),
    ensures
        after_script_errors(*cmd, d, i, file, text::texts(errors@), out),
{
    let (name, _) = script_at(&d, i);
    let label = script_label(name.as_str());
    match cmd.judge_luau(label.as_str(), errors) {
        Err(notice) => stop_at_luau(notice),
        Ok(_) => admit_script(d, i, file),
    }
}

// The archive.

/// The step that takes up a file of the package.
pub open spec fn after_next_file(d: Draft, i: usize, out: PublishStep) -> bool {
    if i >= d.paths@.len() {
        goes(out, Seq::empty(), PublishState::Dependencies(d, 0), PublishAction::Proceed)
    } else {
        goes(out, Seq::empty(), PublishState::AwaitFile(d, i), PublishAction::StatFile(i))
    }
}

/// The step goes on to the next file.
pub open spec fn past_file(d: Draft, i: usize, out: PublishStep) -> bool {
    &&& out.said@ == Seq::<Notice>::empty()
    &&& out.action == PublishAction::Proceed
    &&& out.state matches PublishState::Files(d2, k)
    &&& d2 == d
    &&& k == i + 1
}

/// The step once a file was looked at. The manifest is left for the end.
pub open spec fn after_file(
    d: Draft,
    i: usize,
    exists: bool,
    is_file: bool,
    shown: String,
    out: PublishStep,
) -> bool {
    if !exists {
        fails(out, PublishError::FileMissing(shown))
    } else {
        match file_name_of(d.paths@[i as int]@) {
            None => fails(out, PublishError::NoFileName),
            Some(name) => if text::same_ignoring_case(name, MANIFEST_FILE_NAME@) || !is_file {
                past_file(d, i, out)
            } else {
                goes(
                    out,
                    Seq::empty(),
                    PublishState::AwaitAppend(d, i),
                    PublishAction::AppendFile(i),
                )
            },
        }
    }
}

fn on_file(d: Draft, i: usize, exists: bool, is_file: bool, shown: String) -> (out: PublishStep)
    requires
        i < d.paths.len(),
    ensures
        after_file(d, i, exists, is_file, shown, out),
{
    if !exists {
        return fail(PublishError::FileMissing(shown));
    }
    let skipped = match d.paths[i].file_name() {
        None => {
            return fail(PublishError::NoFileName);
        },
        Some(name) => text::eq_ignore_ascii_case(name.as_str(), MANIFEST_FILE_NAME),
    };
    if skipped || !is_file {
        go(PublishState::Files(d, i + 1), PublishAction::Proceed)
    } else {
        go(PublishState::AwaitAppend(d, i), PublishAction::AppendFile(i))
    }
}

/// The step once a file is in the archive.
pub open spec fn after_append(
    d: Draft,
    i: usize,
    r: Result<(), AppendFailure>,
    out: PublishStep,
) -> bool {
    match r {
        Err(AppendFailure::Open(cause)) => fails(
            out,
            PublishError::Outside(PublishStage::OpenFile(d.paths@[i as int].text), cause),
        ),
        Err(AppendFailure::Append(cause)) => fails(
            out,
            PublishError::Outside(PublishStage::AppendFile, cause),
        ),
        Ok(_) => past_file(d, i, out),
    }
}

fn on_append(d: Draft, i: usize, r: Result<(), AppendFailure>) -> (out: PublishStep)
    requires
        i < d.paths.len(),
    ensures
        after_append(d, i, r, out),
{
    match r {
        Err(AppendFailure::Open(cause)) => fail_outside(
            PublishStage::OpenFile(d.paths[i].text.clone()),
            cause,
        ),
        Err(AppendFailure::Append(cause)) => fail_outside(PublishStage::AppendFile, cause),
        Ok(_) => go(PublishState::Files(d, i + 1), PublishAction::Proceed),
    }
}

// The dependencies.

/// The draft with that specifier for the dependency, and nothing else changed.
pub open spec fn respecified(d: Draft, i: usize, v: SpecifierView, d2: Draft) -> bool {
    let old_list = d.manifest.dependencies@;
    let new_list = d2.manifest.dependencies@;
    &&& d2 == (Draft {
        manifest: Manifest { dependencies: d2.manifest.dependencies, ..d.manifest },
        ..d
    })
    &&& new_list.len() == old_list.len()
    &&& forall|j: int| 0 <= j < old_list.len() && j != i ==> new_list[j] == old_list[j]
    &&& new_list[i as int].alias == old_list[i as int].alias
    &&& new_list[i as int].ty == old_list[i as int].ty
    &&& new_list[i as int].specifier@ == v
}

/// The step goes on to the next dependency, with that specifier for this one.
pub open spec fn past_dependency(d: Draft, i: usize, v: SpecifierView, out: PublishStep) -> bool {
    &&& out.said@ == Seq::<Notice>::empty()
    &&& out.action == PublishAction::Proceed
    &&& out.state matches PublishState::Dependencies(d2, k)
    &&& k == i + 1
    &&& respecified(d, i, v, d2)
}

/// The step that takes up a dependency: an index is replaced by its URL, a
/// workspace member has to be looked up, and a path is refused.
pub open spec fn after_dependencies(d: Draft, i: usize, out: PublishStep) -> bool {
    if i >= d.manifest.dependencies@.len() {
        goes(out, Seq::empty(), PublishState::Summary(d), PublishAction::Proceed)
    } else {
        match d.manifest.dependencies@[i as int].specifier {
            DependencySpecifiers::Pesde { name, version, index, target } => match entry(
                d.manifest.indices@,
                index@,
            ) {
                None => fails(out, PublishError::IndexNotFound(index)),
                Some(e) => past_dependency(
                    d,
                    i,
                    SpecifierView::Pesde {
                        name: name@,
                        version: version@,
                        index: e.url.shown@,
                        target,
                    },
                    out,
                ),
            },
            DependencySpecifiers::Wally { package, index } => match entry(
                d.manifest.wally_indices@,
                index@,
            ) {
                None => fails(out, PublishError::WallyIndexNotFound(index)),
                Some(e) => past_dependency(
                    d,
                    i,
                    SpecifierView::Wally { package: package@, index: e.url.shown@ },
                    out,
                ),
            },
            DependencySpecifiers::Git(s) => past_dependency(d, i, SpecifierView::Git(s@), out),
            DependencySpecifiers::Workspace { .. } => goes(
                out,
                Seq::empty(),
                PublishState::AwaitWorkspace(d, i),
                PublishAction::ResolveWorkspace(i),
            ),
            DependencySpecifiers::Path(_) => fails(out, PublishError::PathDependency),
        }
    }
}

fn respecify(d: Draft, i: usize, specifier: DependencySpecifiers) -> (out: PublishStep)
    requires
        i < d.manifest.dependencies.len(),
    ensures
        past_dependency(d, i, specifier@, out),
{
    let mut d2 = d;
    let alias = d2.manifest.dependencies[i].alias.clone();
    let ty = d2.manifest.dependencies[i].ty;
    d2.manifest.dependencies.set(i, Dependency { alias, specifier, ty });
    go(PublishState::Dependencies(d2, i + 1), PublishAction::Proceed)
}

fn on_dependencies(d: Draft, i: usize) -> (out: PublishStep)
    ensures
        after_dependencies(d, i, out),
{
    if i >= d.manifest.dependencies.len() {
        return go(PublishState::Summary(d), PublishAction::Proceed);
    }
    let specifier = match &d.manifest.dependencies[i].specifier {
        DependencySpecifiers::Pesde { name, version, index, target } => {
            match find(&d.manifest.indices, index.as_str()) {
                None => {
                    return fail(PublishError::IndexNotFound(index.clone()));
                },
                Some(e) => DependencySpecifiers::Pesde {
                    name: name.clone(),
                    version: VersionReq { text: version.text.clone() },
                    index: e.url.shown.clone(),
                    target: *target,
                },
            }
        },
        DependencySpecifiers::Wally { package, index } => {
            match find(&d.manifest.wally_indices, index.as_str()) {
                None => {
                    return fail(PublishError::WallyIndexNotFound(index.clone()));
                },
                Some(e) => DependencySpecifiers::Wally {
                    package: package.clone(),
                    index: e.url.shown.clone(),
                },
            }
        },
        DependencySpecifiers::Git(s) => DependencySpecifiers::Git(s.clone()),
        DependencySpecifiers::Workspace { .. } => {
            return go(PublishState::AwaitWorkspace(d, i), PublishAction::ResolveWorkspace(i));
        },
        DependencySpecifiers::Path(_) => {
            return fail(PublishError::PathDependency);
        },
    };
    respecify(d, i, specifier)
}

/// The step once the workspace member was looked up.
pub open spec fn after_workspace(
    project: Project,
    d: Draft,
    i: usize,
    r: Result<Vec<String>, Failure>,
    out: PublishStep,
) -> bool {
    match r {
        Err(cause) => fails(out, PublishError::Outside(PublishStage::ResolveWorkspace, cause)),
        Ok(dirs) => if dirs@.len() == 0 {
            fails(out, PublishError::NoWorkspaceVersions)
        } else if project.workspace_dir is None {
            fails(out, PublishError::NoWorkspaceDir)
        } else {
            goes(
                out,
                Seq::empty(),
                PublishState::AwaitMember(d, i),
                PublishAction::ReadMember(dirs@.last()),
            )
        },
    }
}

fn on_workspace(project: &Project, d: Draft, i: usize, r: Result<Vec<String>, Failure>) -> (out:
    PublishStep)
    ensures
        after_workspace(*project, d, i, r, out),
{
    let mut dirs = match r {
        Err(cause) => {
            return fail_outside(PublishStage::ResolveWorkspace, cause);
        },
        Ok(dirs) => dirs,
    };
    match dirs.pop() {
        None => fail(PublishError::NoWorkspaceVersions),
        Some(dir) => {
            if project.workspace_dir.is_none() {
                fail(PublishError::NoWorkspaceDir)
            } else {
                go(PublishState::AwaitMember(d, i), PublishAction::ReadMember(dir))
            }
        },
    }
}

/// The requirement that stands for a workspace dependency once it is
/// published, or the sign and the error.
pub open spec fn member_requirement(accepts: VersionTypeOrReq, member: Version) -> Result<
    Seq<char>,
    (Seq<char>, Seq<char>),
> {
    match accepts {
        VersionTypeOrReq::Wildcard => Ok("*"@),
        VersionTypeOrReq::Req(q) => Ok(q@),
        VersionTypeOrReq::Sign(sign) => match parsed_requirement(sign@ + version_text(member@)) {
            Ok(q) => Ok(q),
            Err(e) => Err((sign@, e)),
        },
    }
}

fn requirement_for(accepts: &VersionTypeOrReq, member: &Version) -> (r: Result<
    VersionReq,
    (String, String),
>)
    ensures
        match r {
            Ok(q) => member_requirement(*accepts, *member) == Ok::<
                Seq<char>,
                (Seq<char>, Seq<char>),
            >(q@),
            Err((sign, e)) => member_requirement(*accepts, *member) == Err::<
                Seq<char>,
                (Seq<char>, Seq<char>),
            >((sign@, e@)),
        },
{
    match accepts {
        VersionTypeOrReq::Wildcard => Ok(VersionReq::star()),
        VersionTypeOrReq::Req(q) => Ok(VersionReq { text: q.text.clone() }),
        VersionTypeOrReq::Sign(sign) => {
            let t = text::cat(sign.as_str(), member.to_text().as_str());
            match parse_requirement(t.as_str()) {
                Ok(q) => Ok(q),
                Err(e) => Err((sign.clone(), e)),
            }
        },
    }
}

/// The step that replaces a workspace dependency, given the requirement that
/// stands for it.
pub open spec fn after_requirement(
    d: Draft,
    i: usize,
    requirement: Result<Seq<char>, (Seq<char>, Seq<char>)>,
    indices: Vec<Index>,
    kind: TargetKind,
    out: PublishStep,
) -> bool {
    match requirement {
        Err((sign, e)) => {
            &&& out.said@ == Seq::<Notice>::empty()
            &&& out.state == PublishState::Finished
            &&& out.action matches PublishAction::Done(
                Err(PublishError::InvalidVersion { sign: s, cause }),
            )
            &&& s@ == sign
            &&& cause@ == e
        },
        Ok(version) => match entry(indices@, DEFAULT_INDEX_NAME@) {
            None => fails(out, PublishError::NoDefaultIndex),
            Some(index) => match d.manifest.dependencies@[i as int].specifier {
                DependencySpecifiers::Workspace { name, accepts, target } => past_dependency(
                    d,
                    i,
                    SpecifierView::Pesde {
                        name: name@,
                        version,
                        index: index.url.shown@,
                        target: Some(
                            match target {
                                Some(t) => t,
                                None => kind,
                            },
                        ),
                    },
                    out,
                ),
                _ => true,
            },
        },
    }
}

/// Replaces a workspace dependency, given the requirement that stands for it.
pub fn publish_member(
    d: Draft,
    i: usize,
    requirement: Result<VersionReq, (String, String)>,
    indices: Vec<Index>,
    kind: TargetKind,
) -> (out: PublishStep)
    requires
        i < d.manifest.dependencies.len(),
        d.manifest.dependencies@[i as int].specifier is Workspace,
    ensures
        after_requirement(
            d,
            i,
            match requirement {
                Ok(q) => Ok(q@),
                Err((sign, e)) => Err((sign@, e@)),
            },
            indices,
            kind,
            out,
        ),
{
    let version = match requirement {
        Err((sign, cause)) => {
            return fail(PublishError::InvalidVersion { sign, cause });
        },
        Ok(version) => version,
    };
    let index = match find(&indices, DEFAULT_INDEX_NAME) {
        None => {
            return fail(PublishError::NoDefaultIndex);
        },
        Some(index) => index.url.shown.clone(),
    };
    let specifier = match &d.manifest.dependencies[i].specifier {
        DependencySpecifiers::Workspace { name, accepts: _, target } => {
            let target = match target {
                Some(t) => *t,
                None => kind,
            };
            DependencySpecifiers::Pesde {
                name: name.clone(),
                version,
                index,
                target: Some(target),
            }
        },
        other => other.copy(),
    };
    respecify(d, i, specifier)
}

/// The step once the manifest of the workspace member was read.
pub open spec fn after_member(d: Draft, i: usize, r: MemberOutcome, out: PublishStep) -> bool {
    match r {
        MemberOutcome::ReadFailed(cause) => fails(
            out,
            PublishError::Outside(PublishStage::ReadMember, cause),
        ),
        MemberOutcome::ParseFailed(cause) => fails(
            out,
            PublishError::Outside(PublishStage::ParseMember, cause),
        ),
        MemberOutcome::Manifest { version, indices, target } => {
            match d.manifest.dependencies@[i as int].specifier {
                DependencySpecifiers::Workspace { name, accepts, target: t } => after_requirement(
                    d,
                    i,
                    member_requirement(accepts, version),
                    indices,
                    target,
                    out,
                ),
                _ => true,
            }
        },
    }
}

fn on_member(d: Draft, i: usize, r: MemberOutcome) -> (out: PublishStep)
    requires
        i < d.manifest.dependencies.len(),
        d.manifest.dependencies@[i as int].specifier is Workspace,
    ensures
        after_member(d, i, r, out),
{
    match r {
        MemberOutcome::ReadFailed(cause) => fail_outside(PublishStage::ReadMember, cause),
        MemberOutcome::ParseFailed(cause) => fail_outside(PublishStage::ParseMember, cause),
        MemberOutcome::Manifest { version, indices, target } => {
            let requirement = match &d.manifest.dependencies[i].specifier {
                DependencySpecifiers::Workspace { name: _, accepts, target: _ } => requirement_for(
                    accepts,
                    &version,
                ),
                _ => Ok(VersionReq::star()),
            };
            publish_member(d, i, requirement, indices, target)
        },
    }
}

// The end.

/// Whether the user has to be asked.
pub open spec fn must_ask(cmd: PublishCommand) -> bool {
    !cmd.dry_run && !cmd.yes
}

/// The step that shows what will be published.
pub open spec fn after_summary(cmd: PublishCommand, d: Draft, out: PublishStep) -> bool {
    &&& out.said@.len() == 2
    &&& out.said@[0] == Notice::PleaseConfirm
    &&& out.said@[1] matches Notice::Summary(lines)
    &&& text::texts(lines@) == summary(d)
    &&& if must_ask(cmd) {
        out.state == PublishState::AwaitConfirm(d) && out.action == PublishAction::Confirm
    } else {
        out.state == PublishState::AwaitArchive(d) && out.action == PublishAction::Pack
    }
}

fn on_summary(cmd: &PublishCommand, d: Draft) -> (out: PublishStep)
    ensures
        after_summary(*cmd, d, out),
{
    let mut said: Vec<Notice> = Vec::new();
    said.push(Notice::PleaseConfirm);
    said.push(Notice::Summary(summary_lines(&d)));
    if !cmd.dry_run && !cmd.yes {
        PublishStep { state: PublishState::AwaitConfirm(d), said, action: PublishAction::Confirm }
    } else {
        PublishStep { state: PublishState::AwaitArchive(d), said, action: PublishAction::Pack }
    }
}

/// The step once the user has answered.
pub open spec fn after_confirm(d: Draft, r: Result<bool, Failure>, out: PublishStep) -> bool {
    match r {
        Err(cause) => fails(out, PublishError::Outside(PublishStage::Confirm, cause)),
        Ok(false) => ends(out, seq![Notice::Aborted], Ok(())),
        Ok(true) => goes(
            out,
            Seq::empty(),
            PublishState::AwaitArchive(d),
            PublishAction::Pack,
        ),
    }
}

fn finish(notice: Notice) -> (out: PublishStep)
    ensures
        ends(out, seq![notice], Ok(())),
{
    let mut said: Vec<Notice> = Vec::new();
    said.push(notice);
    assert(said@ =~= seq![notice]);
    PublishStep { state: PublishState::Finished, said, action: PublishAction::Done(Ok(())) }
}

fn on_confirm(d: Draft, r: Result<bool, Failure>) -> (out: PublishStep)
    ensures
        after_confirm(d, r, out),
{
    match r {
        Err(cause) => fail_outside(PublishStage::Confirm, cause),
        Ok(true) => go(PublishState::AwaitArchive(d), PublishAction::Pack),
        Ok(false) => finish(Notice::Aborted),
    }
}

/// The work that a failure in finishing the archive is put down to.
pub open spec fn pack_stage(s: PackStage) -> PublishStage {
    match s {
        PackStage::TempManifest => PublishStage::TempManifest,
        PackStage::SerializeManifest => PublishStage::SerializeManifest,
        PackStage::WriteTempManifest => PublishStage::WriteTempManifest,
        PackStage::RewindTempManifest => PublishStage::RewindTempManifest,
        PackStage::AppendManifest => PublishStage::AppendManifest,
        PackStage::FinishArchive => PublishStage::FinishArchive,
    }
}

fn stage_of(s: PackStage) -> (r: PublishStage)
    ensures
        r == pack_stage(s),
{
    match s {
        PackStage::TempManifest => PublishStage::TempManifest,
        PackStage::SerializeManifest => PublishStage::SerializeManifest,
        PackStage::WriteTempManifest => PublishStage::WriteTempManifest,
        PackStage::RewindTempManifest => PublishStage::RewindTempManifest,
        PackStage::AppendManifest => PublishStage::AppendManifest,
        PackStage::FinishArchive => PublishStage::FinishArchive,
    }
}

/// The step once the archive is finished: the index that was asked for is used.
pub open spec fn after_archive(
    cmd: PublishCommand,
    d: Draft,
    r: Result<usize, (PackStage, Failure)>,
    out: PublishStep,
) -> bool {
    match r {
        Err((stage, cause)) => fails(out, PublishError::Outside(pack_stage(stage), cause)),
        Ok(size) => match entry(d.manifest.indices@, cmd.index@) {
            None => fails(out, PublishError::MissingIndex(cmd.index)),
            Some(index) => {
                &&& out.said@ == Seq::<Notice>::empty()
                &&& out.action matches PublishAction::Refresh(u)
                &&& u@ == index.url@
                &&& out.state matches PublishState::AwaitRefresh(n, url)
                &&& n == size
                &&& url@ == index.url@
            },
        },
    }
}

fn on_archive(cmd: &PublishCommand, d: Draft, r: Result<usize, (PackStage, Failure)>) -> (out:
    PublishStep)
    ensures
        after_archive(*cmd, d, r, out),
{
    match r {
        Err((stage, cause)) => fail_outside(stage_of(stage), cause),
        Ok(size) => match find(&d.manifest.indices, cmd.index.as_str()) {
            None => fail(PublishError::MissingIndex(cmd.index.clone())),
            Some(index) => go(
                PublishState::AwaitRefresh(size, index.url.copy()),
                PublishAction::Refresh(index.url.copy()),
            ),
        },
    }
}

/// The step once the index was refreshed.
pub open spec fn after_refresh(
    size: usize,
    url: GitUrl,
    r: Result<(), Failure>,
    out: PublishStep,
) -> bool {
    match r {
        Err(cause) => fails(out, PublishError::Outside(PublishStage::RefreshSource, cause)),
        Ok(_) => {
            &&& out.said@ == Seq::<Notice>::empty()
            &&& out.action matches PublishAction::ReadConfig(u)
            &&& u@ == url@
            &&& out.state == PublishState::AwaitConfig(size, url)
        },
    }
}

/// The step once the index has said what it takes: the archive may not be
/// larger than that, and in a dry run it is not sent.
pub open spec fn after_config(
    cmd: PublishCommand,
    project: Project,
    size: usize,
    url: GitUrl,
    r: Result<IndexConfig, Failure>,
    out: PublishStep,
) -> bool {
    match r {
        Err(cause) => fails(out, PublishError::Outside(PublishStage::ReadConfig, cause)),
        Ok(config) => if size > config.max_archive_size {
            fails(
                out,
                PublishError::ArchiveTooLarge {
                    max: config.max_archive_size,
                    by: (size - config.max_archive_size) as usize,
                },
            )
        } else if cmd.dry_run {
            goes(out, Seq::empty(), PublishState::AwaitTarball, PublishAction::WriteTarball)
        } else {
            &&& out.said@ == Seq::<Notice>::empty()
            &&& out.state == PublishState::AwaitResponse
            &&& out.action matches PublishAction::Upload { url: to, token }
            &&& to@ == config.api@ + "/v1/packages"@
            &&& token == (match entry(project.auth_config.tokens@, url.text@) {
                Some(t) => Some(t.token),
                None => None,
            })
        },
    }
}

fn on_config(
    cmd: &PublishCommand,
    project: &Project,
    size: usize,
    url: GitUrl,
    r: Result<IndexConfig, Failure>,
) -> (out: PublishStep)
    ensures
        after_config(*cmd, *project, size, url, r, out),
{
    let config = match r {
        Err(cause) => {
            return fail_outside(PublishStage::ReadConfig, cause);
        },
        Ok(config) => config,
    };
    if size > config.max_archive_size {
        return fail(
            PublishError::ArchiveTooLarge {
                max: config.max_archive_size,
                by: size - config.max_archive_size,
            },
        );
    }
    if cmd.dry_run {
        return go(PublishState::AwaitTarball, PublishAction::WriteTarball);
    }
    let token = match find(&project.auth_config.tokens, url.text.as_str()) {
        Some(t) => Some(t.token.clone()),
        None => None,
    };
    go(
        PublishState::AwaitResponse,
        PublishAction::Upload { url: text::cat(config.api.as_str(), "/v1/packages"), token },
    )
}

/// A status as `reqwest::StatusCode` shows it: the number and its reason.
pub uninterp spec fn status_line(code: u16) -> Seq<char>;

/// Calls `Display` of `reqwest::StatusCode`, whose text depends on the code
/// alone.
#[verifier::external_body]
fn show_status(code: u16) -> (r: String)
    requires
        100 <= code <= 999,
    ensures
        r@ == status_line(code),
{
    reqwest::StatusCode::from_u16(code).unwrap().to_string()
}

/// Whether a status is one of success.
pub open spec fn is_success(code: u16) -> bool {
    200 <= code < 300
}

/// What an answer with that status and text means, given how the status is shown.
pub open spec fn reply_meaning(
    code: u16,
    shown: Seq<char>,
    body: String,
    out: PublishStep,
) -> bool {
    if code == 409 {
        fails(out, PublishError::VersionExists)
    } else if code == 403 {
        fails(out, PublishError::Unauthorized)
    } else if code == 400 {
        fails(out, PublishError::InvalidPackage(body))
    } else if !is_success(code) {
        &&& out.said@ == Seq::<Notice>::empty()
        &&& out.state == PublishState::Finished
        &&& out.action matches PublishAction::Done(
            Err(PublishError::Refused { status, text: t }),
        )
        &&& status@ == shown
        &&& t == body
    } else {
        ends(out, seq![Notice::Published(body)], Ok(()))
    }
}

/// Tells what an answer means, given how its status is shown.
pub fn judge_reply(code: u16, shown: String, body: String) -> (out: PublishStep)
    ensures
        reply_meaning(code, shown@, body, out),
{
    if code == 409 {
        fail(PublishError::VersionExists)
    } else if code == 403 {
        fail(PublishError::Unauthorized)
    } else if code == 400 {
        fail(PublishError::InvalidPackage(body))
    } else if !(200 <= code && code < 300) {
        fail(PublishError::Refused { status: shown, text: body })
    } else {
        finish(Notice::Published(body))
    }
}

/// The step once the index has answered.
pub open spec fn after_response(r: Result<Reply, Failure>, out: PublishStep) -> bool {
    match r {
        Err(cause) => fails(out, PublishError::Outside(PublishStage::SendRequest, cause)),
        Ok(reply) => match reply.text {
            Err(cause) => fails(out, PublishError::Outside(PublishStage::ResponseText, cause)),
            Ok(body) => reply_meaning(reply.status, status_line(reply.status), body, out),
        },
    }
}

fn on_response(r: Result<Reply, Failure>) -> (out: PublishStep)
    requires
        r is Ok ==> 100 <= r->Ok_0.status <= 999,
    ensures
        after_response(r, out),
{
    match r {
        Err(cause) => fail_outside(PublishStage::SendRequest, cause),
        Ok(reply) => match reply.text {
            Err(cause) => fail_outside(PublishStage::ResponseText, cause),
            Ok(body) => judge_reply(reply.status, show_status(reply.status), body),
        },
    }
}

// The whole.

/// Whether the event is one that the state waits for.
pub open spec fn awaits(s: PublishState, e: PublishEvent) -> bool {
    match (s, e) {
        (PublishState::AwaitManifest, PublishEvent::Manifest(_)) => true,
        (PublishState::AwaitLockfile(_), PublishEvent::Lockfile(_)) => true,
        (PublishState::AwaitEngines(_, _), PublishEvent::Engines(_)) => true,
        (PublishState::Inspect(_, _, _), PublishEvent::Proceed) => true,
        (
            PublishState::AwaitDependency(_, types, seen),
            PublishEvent::DependencyTarget(i, _),
        ) => i < types.len() && seen < types.len(),
        (PublishState::AwaitPackageDir(_), PublishEvent::PackageDir(_)) => true,
        (PublishState::AwaitFiles(_), PublishEvent::Files(_)) => true,
        (PublishState::Exports(_, _), PublishEvent::Proceed) => true,
        (PublishState::AwaitExport(d, which), PublishEvent::FileRead(_)) => exported(
            d.manifest.target,
            which,
        ) is Some,
        (PublishState::AwaitExportPath(d, which, _), PublishEvent::Canonical(_)) => exported(
            d.manifest.target,
            which,
        ) is Some,
        (PublishState::AwaitExportErrors(d, which, _), PublishEvent::Parsed(_)) => exported(
            d.manifest.target,
            which,
        ) is Some,
        (PublishState::BuildFiles(_, _), PublishEvent::Proceed) => true,
        (PublishState::AwaitBuildFile(d, i), PublishEvent::BuildFile { .. }) => {
            d.manifest.target.build_files is Some && i < d.manifest.target.build_files->0.len()
        },
        (PublishState::Scripts(_, _), PublishEvent::Proceed) => true,
        (PublishState::AwaitScript(d, i), PublishEvent::FileRead(_)) => d.manifest.target.scripts
            is Some && i < d.manifest.target.scripts->0.len(),
        (
            PublishState::AwaitScriptPath(d, i, _),
            PublishEvent::Canonical(_),
        ) => d.manifest.target.scripts is Some && i < d.manifest.target.scripts->0.len(),
        (
            PublishState::AwaitScriptErrors(d, i, _),
            PublishEvent::Parsed(_),
        ) => d.manifest.target.scripts is Some && i < d.manifest.target.scripts->0.len(),
        (PublishState::Files(_, _), PublishEvent::Proceed) => true,
        (PublishState::AwaitFile(d, i), PublishEvent::File { .. }) => i < d.paths.len(),
        (PublishState::AwaitAppend(d, i), PublishEvent::Appended(_)) => i < d.paths.len(),
        (PublishState::Dependencies(_, _), PublishEvent::Proceed) => true,
        (PublishState::AwaitWorkspace(_, _), PublishEvent::Workspace(_)) => true,
        (PublishState::AwaitMember(d, i), PublishEvent::Member(_)) => i
            < d.manifest.dependencies.len() && d.manifest.dependencies@[i as int].specifier
            is Workspace,
        (PublishState::Summary(_), PublishEvent::Proceed) => true,
        (PublishState::AwaitConfirm(_), PublishEvent::Confirmed(_)) => true,
        (PublishState::AwaitArchive(_), PublishEvent::Archived(_)) => true,
        (PublishState::AwaitRefresh(_, _), PublishEvent::Refreshed(_)) => true,
        (PublishState::AwaitConfig(_, _), PublishEvent::Config(_)) => true,
        (PublishState::AwaitTarball, PublishEvent::Written(_)) => true,
        (PublishState::AwaitResponse, PublishEvent::Response(r)) => r is Ok ==> 100
            <= r->Ok_0.status <= 999,
        _ => false,
    }
}

/// What comes of the event in that state.
pub open spec fn is_step(
    cmd: PublishCommand,
    project: Project,
    rules: Rules,
    s: PublishState,
    e: PublishEvent,
    out: PublishStep,
) -> bool {
    match (s, e) {
        (PublishState::AwaitManifest, PublishEvent::Manifest(r)) => after_manifest(r, out),
        (PublishState::AwaitLockfile(m), PublishEvent::Lockfile(r)) => after_lockfile(m, r, out),
        (PublishState::AwaitEngines(m, types), PublishEvent::Engines(r)) => match r {
            Err(cause) => fails(out, PublishError::Outside(PublishStage::FindEngines, cause)),
            Ok(_) => goes(
                out,
                Seq::empty(),
                PublishState::Inspect(m, types, 0),
                PublishAction::InspectDependencies,
            ),
        },
        (PublishState::Inspect(m, types, seen), PublishEvent::Proceed) => after_inspect(
            m,
            types,
            seen,
            out,
        ),
        (
            PublishState::AwaitDependency(m, types, seen),
            PublishEvent::DependencyTarget(i, r),
        ) => after_dependency_target(m, types, seen, i, r, out),
        (PublishState::AwaitPackageDir(m), PublishEvent::PackageDir(r)) => match r {
            Err(cause) => fails(
                out,
                PublishError::Outside(PublishStage::CanonicalizePackage, cause),
            ),
            Ok(_) => goes(
                out,
                Seq::empty(),
                PublishState::AwaitFiles(m),
                PublishAction::ListFiles,
            ),
        },
        (PublishState::AwaitFiles(m), PublishEvent::Files(r)) => after_files(rules, m, r, out),
        (PublishState::Exports(d, which), PublishEvent::Proceed) => after_exports(d, which, out),
        (PublishState::AwaitExport(d, which), PublishEvent::FileRead(r)) => after_export_read(
            d,
            which,
            r,
            out,
        ),
        (
            PublishState::AwaitExportPath(d, which, contents),
            PublishEvent::Canonical(r),
        ) => after_export_path(cmd, d, which, contents, r, out),
        (
            PublishState::AwaitExportErrors(d, which, file),
            PublishEvent::Parsed(errors),
        ) => after_export_errors(cmd, d, which, file, text::texts(errors@), out),
        (PublishState::BuildFiles(d, i), PublishEvent::Proceed) => after_build_files(d, i, out),
        (
            PublishState::AwaitBuildFile(d, i),
            PublishEvent::BuildFile { exists, is_file, parts },
        ) => after_build_file(d, i, exists, is_file, parts, out),
        (PublishState::Scripts(d, i), PublishEvent::Proceed) => after_scripts(d, i, out),
        (PublishState::AwaitScript(d, i), PublishEvent::FileRead(r)) => after_script_read(
            d,
            i,
            r,
            out,
        ),
        (
            PublishState::AwaitScriptPath(d, i, contents),
            PublishEvent::Canonical(r),
        ) => after_script_path(cmd, d, i, contents, r, out),
        (
            PublishState::AwaitScriptErrors(d, i, file),
            PublishEvent::Parsed(errors),
        ) => after_script_errors(cmd, d, i, file, text::texts(errors@), out),
        (PublishState::Files(d, i), PublishEvent::Proceed) => after_next_file(d, i, out),
        (
            PublishState::AwaitFile(d, i),
            PublishEvent::File { exists, is_file, shown },
        ) => after_file(d, i, exists, is_file, shown, out),
        (PublishState::AwaitAppend(d, i), PublishEvent::Appended(r)) => after_append(d, i, r, out),
        (PublishState::Dependencies(d, i), PublishEvent::Proceed) => after_dependencies(d, i, out),
        (PublishState::AwaitWorkspace(d, i), PublishEvent::Workspace(r)) => after_workspace(
            project,
            d,
            i,
            r,
            out,
        ),
        (PublishState::AwaitMember(d, i), PublishEvent::Member(r)) => after_member(d, i, r, out),
        (PublishState::Summary(d), PublishEvent::Proceed) => after_summary(cmd, d, out),
        (PublishState::AwaitConfirm(d), PublishEvent::Confirmed(r)) => after_confirm(d, r, out),
        (PublishState::AwaitArchive(d), PublishEvent::Archived(r)) => after_archive(
            cmd,
            d,
            r,
            out,
        ),
        (PublishState::AwaitRefresh(size, url), PublishEvent::Refreshed(r)) => after_refresh(
            size,
            url,
            r,
            out,
        ),
        (PublishState::AwaitConfig(size, url), PublishEvent::Config(r)) => after_config(
            cmd,
            project,
            size,
            url,
            r,
            out,
        ),
        (PublishState::AwaitTarball, PublishEvent::Written(r)) => match r {
            Err(cause) => fails(out, PublishError::Outside(PublishStage::WriteTarball, cause)),
            Ok(_) => ends(out, seq![Notice::DryRunWritten], Ok(())),
        },
        (PublishState::AwaitResponse, PublishEvent::Response(r)) => after_response(r, out),
        _ => false,
    }
}

impl PublishCommand {
    /// The first step of a publication.
    pub fn run_impl(&self) -> (out: PublishStep)
        ensures
            goes(out, Seq::empty(), PublishState::AwaitManifest, PublishAction::ReadManifest),
    {
        go(PublishState::AwaitManifest, PublishAction::ReadManifest)
    }

    /// The next step of a publication.
    pub fn step(
        &self,
        project: &Project,
        rules: &Rules,
        state: PublishState,
        event: PublishEvent,
    ) -> (out: PublishStep)
        requires
            awaits(state, event),
        ensures
            is_step(*self, *project, *rules, state, event, out),
    {
        match (state, event) {
            (PublishState::AwaitManifest, PublishEvent::Manifest(r)) => on_manifest(r),
            (PublishState::AwaitLockfile(m), PublishEvent::Lockfile(r)) => on_lockfile(m, r),
            (PublishState::AwaitEngines(m, types), PublishEvent::Engines(r)) => match r {
                Err(cause) => fail_outside(PublishStage::FindEngines, cause),
                Ok(_) => go(
                    PublishState::Inspect(m, types, 0),
                    PublishAction::InspectDependencies,
                ),
            },
            (PublishState::Inspect(m, types, seen), PublishEvent::Proceed) => {
                if seen < types.len() {
                    go(
                        PublishState::AwaitDependency(m, types, seen),
                        PublishAction::AwaitDependency,
                    )
                } else {
                    go(PublishState::AwaitPackageDir(m), PublishAction::CanonicalizePackage)
                }
            },
            (
                PublishState::AwaitDependency(m, types, seen),
                PublishEvent::DependencyTarget(i, r),
            ) => on_dependency_target(m, types, seen, i, r),
            (PublishState::AwaitPackageDir(m), PublishEvent::PackageDir(r)) => match r {
                Err(cause) => fail_outside(PublishStage::CanonicalizePackage, cause),
                Ok(_) => go(PublishState::AwaitFiles(m), PublishAction::ListFiles),
            },
            (PublishState::AwaitFiles(m), PublishEvent::Files(r)) => on_files(rules, m, r),
            (PublishState::Exports(d, which), PublishEvent::Proceed) => on_exports(d, which),
            (PublishState::AwaitExport(d, which), PublishEvent::FileRead(r)) => on_export_read(
                d,
                which,
                r,
            ),
            (
                PublishState::AwaitExportPath(d, which, contents),
                PublishEvent::Canonical(r),
            ) => on_export_path(self, d, which, contents, r),
            (
                PublishState::AwaitExportErrors(d, which, file),
                PublishEvent::Parsed(errors),
            ) => on_export_errors(self, d, which, file, errors),
            (PublishState::BuildFiles(d, i), PublishEvent::Proceed) => on_build_files(d, i),
            (
                PublishState::AwaitBuildFile(d, i),
                PublishEvent::BuildFile { exists, is_file, parts },
            ) => on_build_file(d, i, exists, is_file, parts),
            (PublishState::Scripts(d, i), PublishEvent::Proceed) => on_scripts(d, i),
            (PublishState::AwaitScript(d, i), PublishEvent::FileRead(r)) => on_script_read(d, i, r),
            (
                PublishState::AwaitScriptPath(d, i, contents),
                PublishEvent::Canonical(r),
            ) => on_script_path(self, d, i, contents, r),
            (
                PublishState::AwaitScriptErrors(d, i, file),
                PublishEvent::Parsed(errors),
            ) => on_script_errors(self, d, i, file, errors),
            (PublishState::Files(d, i), PublishEvent::Proceed) => {
                if i >= d.paths.len() {
                    go(PublishState::Dependencies(d, 0), PublishAction::Proceed)
                } else {
                    go(PublishState::AwaitFile(d, i), PublishAction::StatFile(i))
                }
            },
            (
                PublishState::AwaitFile(d, i),
                PublishEvent::File { exists, is_file, shown },
            ) => on_file(d, i, exists, is_file, shown),
            (PublishState::AwaitAppend(d, i), PublishEvent::Appended(r)) => on_append(d, i, r),
            (PublishState::Dependencies(d, i), PublishEvent::Proceed) => on_dependencies(d, i),
            (PublishState::AwaitWorkspace(d, i), PublishEvent::Workspace(r)) => on_workspace(
                project,
                d,
                i,
                r,
            ),
            (PublishState::AwaitMember(d, i), PublishEvent::Member(r)) => on_member(d, i, r),
            (PublishState::Summary(d), PublishEvent::Proceed) => on_summary(self, d),
            (PublishState::AwaitConfirm(d), PublishEvent::Confirmed(r)) => on_confirm(d, r),
            (PublishState::AwaitArchive(d), PublishEvent::Archived(r)) => on_archive(self, d, r),
            (PublishState::AwaitRefresh(size, url), PublishEvent::Refreshed(r)) => match r {
                Err(cause) => fail_outside(PublishStage::RefreshSource, cause),
                Ok(_) => {
                    let site = url.copy();
                    go(PublishState::AwaitConfig(size, url), PublishAction::ReadConfig(site))
                },
            },
            (PublishState::AwaitConfig(size, url), PublishEvent::Config(r)) => on_config(
                self,
                project,
                size,
                url,
                r,
            ),
            (PublishState::AwaitTarball, PublishEvent::Written(r)) => match r {
                Err(cause) => fail_outside(PublishStage::WriteTarball, cause),
                Ok(_) => finish(Notice::DryRunWritten),
            },
            (PublishState::AwaitResponse, PublishEvent::Response(r)) => on_response(r),
            _ => go(PublishState::Finished, PublishAction::Proceed),
        }
    }
}

} // verus!
