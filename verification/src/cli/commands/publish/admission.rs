//! How what a package exports gets into it.

use super::errors::{Export, PublishError, PublishStage};
use super::included::Rules;
use super::laws::{admitted, draft_of};
use super::luau::luau_errors;
use super::notices::Notice;
use super::paths::{adding_a_path, part_views, path_views, FilePath, Part, PartView};
use super::steps::{
    after_admission, awaits, is_step, Draft, PublishAction, PublishCommand, PublishEvent,
    PublishState, PublishStep, ReadOutcome,
};
use crate::failure::Failure;
use crate::project::{Manifest, Project, Script, Target, TargetKind};
use crate::relative::{first_part, FirstPartView};
use crate::search;
use crate::text;
use vstd::prelude::*;

verus! {

/// The library that a package exports is read first, and then what it exports to be run;
/// what is not exported is passed over. After both come the files that are built.
pub proof fn both_exports_are_read(
    cmd: PublishCommand,
    project: Project,
    rules: Rules,
    d: Draft,
    which: Export,
    out: PublishStep,
)
    requires
        is_step(
            cmd,
            project,
            rules,
            PublishState::Exports(d, which),
            PublishEvent::Proceed,
            out,
        ),
    ensures
        out.said@.len() == 0,
        which == Export::Lib ==> match d.manifest.target.lib_path {
            Some(path) => out.action == PublishAction::ReadFile(path) && out.state
                == PublishState::AwaitExport(d, which),
            None => out.action == PublishAction::Proceed && out.state == PublishState::Exports(
                d,
                Export::Bin,
            ),
        },
        which == Export::Bin ==> match d.manifest.target.bin_path {
            Some(path) => out.action == PublishAction::ReadFile(path) && out.state
                == PublishState::AwaitExport(d, which),
            None => out.action == PublishAction::Proceed && out.state == PublishState::BuildFiles(
                d,
                0,
            ),
        },
{
}

/// An export must be a file that is there and can be read.
pub proof fn exports_are_files(
    cmd: PublishCommand,
    project: Project,
    rules: Rules,
    d: Draft,
    which: Export,
    read: ReadOutcome,
    out: PublishStep,
)
    requires
        awaits(PublishState::AwaitExport(d, which), PublishEvent::FileRead(read)),
        is_step(
            cmd,
            project,
            rules,
            PublishState::AwaitExport(d, which),
            PublishEvent::FileRead(read),
            out,
        ),
    ensures
        match read {
            ReadOutcome::NotFound => out.action == PublishAction::Done(
                Err::<(), PublishError>(PublishError::ExportMissing(which)),
            ),
            ReadOutcome::IsDirectory => out.action == PublishAction::Done(
                Err::<(), PublishError>(PublishError::ExportIsDirectory(which)),
            ),
            ReadOutcome::Failed(cause) => out.action == PublishAction::Done(
                Err::<(), PublishError>(
                    PublishError::Outside(PublishStage::ReadExport(which), cause),
                ),
            ),
            ReadOutcome::Contents(contents) => {
                &&& out.state == PublishState::AwaitExportPath(d, which, contents)
                &&& out.action matches PublishAction::CanonicalizeFile(path)
                &&& which == Export::Lib ==> d.manifest.target.lib_path == Some(path)
                &&& which == Export::Bin ==> d.manifest.target.bin_path == Some(path)
            },
        },
{
}

/// Whether the package is for Roblox.
pub open spec fn is_for_roblox(m: Manifest) -> bool {
    m.target.kind == TargetKind::Roblox || m.target.kind == TargetKind::RobloxServer
}

/// What an export that is taken into a package does to it: its file is among the files, and
/// none of the others is lost or added. For Roblox the first part of its path is among the
/// files that are built, and again none is lost or added; nothing else of the manifest
/// changes, and for other targets nothing at all.
pub open spec fn takes_in(
    d: Draft,
    path: Seq<char>,
    file: FilePath,
    d2: Draft,
) -> bool {
    &&& forall|p: Seq<PartView>| #[trigger]
        path_views(d2.paths@).contains(p) <==> p == part_views(file.parts@) || path_views(
            d.paths@,
        ).contains(p)
    &&& d2.build_shown == d.build_shown
    &&& match (is_for_roblox(d.manifest), d.manifest.target.build_files) {
        (true, Some(files)) => {
            &&& d2.manifest == (Manifest {
                target: Target {
                    build_files: d2.manifest.target.build_files,
                    ..d.manifest.target
                },
                ..d.manifest
            })
            &&& d2.manifest.target.build_files matches Some(new)
            &&& forall|t: Seq<char>| #[trigger]
                text::texts(new@).contains(t) <==> first_part(path) == Some(
                    FirstPartView::Normal(t),
                ) || text::texts(files@).contains(t)
        },
        _ => d2.manifest == d.manifest,
    }
}

proof fn lemma_takes_in(d: Draft, which: Export, path: String, file: FilePath, out: PublishStep)
    requires
        after_admission(d, which, file, out),
        which == Export::Lib ==> d.manifest.target.lib_path == Some(path),
        which == Export::Bin ==> d.manifest.target.bin_path == Some(path),
    ensures
        draft_of(out.state) is Some <==> first_part(path@) matches Some(FirstPartView::Normal(_)),
        draft_of(out.state) matches Some(d2) ==> {
            &&& takes_in(d, path@, file, d2)
            &&& which == Export::Lib ==> out.state == PublishState::Exports(d2, Export::Bin)
            &&& which == Export::Bin ==> out.state == PublishState::BuildFiles(d2, 0)
            &&& out.said@.contains(Notice::ExportAdded { export: which, path }) <==> !path_views(
                d.paths@,
            ).contains(part_views(file.parts@))
        },
        first_part(path@) is None <==> out.action == PublishAction::Done(
            Err::<(), PublishError>(PublishError::ExportEmpty(which)),
        ),
        (first_part(path@) matches Some(FirstPartView::Current)) || (first_part(path@) matches Some(
            FirstPartView::Parent,
        )) <==> out.action == PublishAction::Done(
            Err::<(), PublishError>(PublishError::ExportOutside(which)),
        ),
{
    if draft_of(out.state) is Some {
        let d2 = admitted(d, which, file, out);
        adding_a_path(d.paths@, file);
        let first = first_part(path@)->0->Normal_0;
        if is_for_roblox(d.manifest) {
            if let Some(files) = d.manifest.target.build_files {
                search::insertion_adds_just_that(text::texts(files@), first);
            }
        }
        assert(takes_in(d, path@, file, d2));
        if !path_views(d.paths@).contains(file@) {
            assert(out.said@[0] == (Notice::ExportAdded { export: which, path }));
        } else {
            assert forall|i: int| 0 <= i < out.said@.len() implies !(out.said@[i]
                == (Notice::ExportAdded { export: which, path })) by {
                assert(out.said@.last() is BuildFileAdded);
            }
        }
    }
}

/// That a file had to be added to those that are built is told, with the file, and only then.
pub proof fn added_build_files_are_told(
    cmd: PublishCommand,
    project: Project,
    rules: Rules,
    d: Draft,
    which: Export,
    path: String,
    contents: String,
    file: FilePath,
    out: PublishStep,
    files: Vec<String>,
    first: Seq<char>,
)
    requires
        which == Export::Lib ==> d.manifest.target.lib_path == Some(path),
        which == Export::Bin ==> d.manifest.target.bin_path == Some(path),
        is_step(
            cmd,
            project,
            rules,
            PublishState::AwaitExportPath(d, which, contents),
            PublishEvent::Canonical(Ok::<FilePath, Failure>(file)),
            out,
        ),
        !(out.state is AwaitExportErrors),
        cmd.skip_validation || luau_errors(contents@).len() == 0,
        first_part(path@) == Some(FirstPartView::Normal(first)),
        d.manifest.target.build_files == Some(files),
    ensures
        (exists|i: int|
            0 <= i < out.said@.len() && (#[trigger] out.said@[i] matches Notice::BuildFileAdded {
                export,
                file: f,
            } && export == which && f@ == first)) <==> is_for_roblox(d.manifest) && !text::texts(
            files@,
        ).contains(first),
{
    let n = out.said@.len() - 1;
    if is_for_roblox(d.manifest) && !text::texts(files@).contains(first) {
        assert(out.said@[n] is BuildFileAdded);
    }
}

/// An export is refused if its path does not start with the name of a file or directory, and
/// is else taken into the package, unless its code is not valid.
pub proof fn exports_are_taken_in(
    cmd: PublishCommand,
    project: Project,
    rules: Rules,
    d: Draft,
    which: Export,
    path: String,
    contents: String,
    file: FilePath,
    out: PublishStep,
)
    requires
        which == Export::Lib ==> d.manifest.target.lib_path == Some(path),
        which == Export::Bin ==> d.manifest.target.bin_path == Some(path),
        is_step(
            cmd,
            project,
            rules,
            PublishState::AwaitExportPath(d, which, contents),
            PublishEvent::Canonical(Ok::<FilePath, Failure>(file)),
            out,
        ),
        !(out.state is AwaitExportErrors),
        cmd.skip_validation || luau_errors(contents@).len() == 0,
    ensures
        draft_of(out.state) is Some <==> first_part(path@) matches Some(FirstPartView::Normal(_)),
        draft_of(out.state) matches Some(d2) ==> {
            &&& takes_in(d, path@, file, d2)
            &&& which == Export::Lib ==> out.state == PublishState::Exports(d2, Export::Bin)
            &&& which == Export::Bin ==> out.state == PublishState::BuildFiles(d2, 0)
            &&& out.said@.contains(Notice::ExportAdded { export: which, path }) <==> !path_views(
                d.paths@,
            ).contains(part_views(file.parts@))
        },
        first_part(path@) is None <==> out.action == PublishAction::Done(
            Err::<(), PublishError>(PublishError::ExportEmpty(which)),
        ),
        (first_part(path@) matches Some(FirstPartView::Current)) || (first_part(path@) matches Some(
            FirstPartView::Parent,
        )) <==> out.action == PublishAction::Done(
            Err::<(), PublishError>(PublishError::ExportOutside(which)),
        ),
{
    lemma_takes_in(d, which, path, file, out);
}

/// An export whose code had to be parsed apart is taken into the package in the same way.
pub proof fn parsed_exports_are_taken_in(
    cmd: PublishCommand,
    project: Project,
    rules: Rules,
    d: Draft,
    which: Export,
    path: String,
    file: FilePath,
    errors: Vec<String>,
    out: PublishStep,
)
    requires
        which == Export::Lib ==> d.manifest.target.lib_path == Some(path),
        which == Export::Bin ==> d.manifest.target.bin_path == Some(path),
        is_step(
            cmd,
            project,
            rules,
            PublishState::AwaitExportErrors(d, which, file),
            PublishEvent::Parsed(errors),
            out,
        ),
    ensures
        !cmd.skip_validation && errors@.len() > 0 <==> out.action == PublishAction::Done(
            Err::<(), PublishError>(PublishError::InvalidLuau),
        ),
        cmd.skip_validation || errors@.len() == 0 ==> (draft_of(out.state) is Some <==> (first_part(
            path@,
        ) matches Some(FirstPartView::Normal(_)))),
        draft_of(out.state) matches Some(d2) ==> takes_in(d, path@, file, d2),
{
    assert(text::texts(errors@).len() == errors@.len());
    if cmd.skip_validation || errors@.len() == 0 {
        lemma_takes_in(d, which, path, file, out);
    }
}

/// Each file that is built is looked at, but for the manifest, of which the user is warned.
/// Only packages for Roblox build files; after them come the scripts.
pub proof fn built_files_are_looked_at(
    cmd: PublishCommand,
    project: Project,
    rules: Rules,
    d: Draft,
    i: usize,
    out: PublishStep,
)
    requires
        is_step(
            cmd,
            project,
            rules,
            PublishState::BuildFiles(d, i),
            PublishEvent::Proceed,
            out,
        ),
    ensures
        ({
            let files = match d.manifest.target.build_files {
                Some(files) => if is_for_roblox(d.manifest) {
                    files@
                } else {
                    Seq::<String>::empty()
                },
                None => Seq::<String>::empty(),
            };
            if i >= files.len() {
                out.state == PublishState::Scripts(d, 0) && out.said@.len() == 0
            } else if text::same_ignoring_case(files[i as int]@, "pesde.toml"@) {
                out.said@ == seq![Notice::ManifestInBuildFiles] && (out.state matches
                    PublishState::BuildFiles(d2, k) && d2 == d && k == i + 1)
            } else {
                out.said@.len() == 0 && out.action == PublishAction::StatBuildFile(
                    files[i as int],
                ) && out.state == PublishState::AwaitBuildFile(d, i)
            }
        }),
{
}

/// A file that is built must be there, and must be among the files of the package, itself or
/// as a directory that one of them lies in. It is shown by its name, and a directory with a
/// star behind it.
pub proof fn built_files_are_included(
    cmd: PublishCommand,
    project: Project,
    rules: Rules,
    d: Draft,
    i: usize,
    exists: bool,
    is_file: bool,
    parts: Vec<Part>,
    out: PublishStep,
)
    requires
        awaits(
            PublishState::AwaitBuildFile(d, i),
            PublishEvent::BuildFile { exists, is_file, parts },
        ),
        is_step(
            cmd,
            project,
            rules,
            PublishState::AwaitBuildFile(d, i),
            (PublishEvent::BuildFile { exists, is_file, parts }),
            out,
        ),
    ensures
        ({
            let name = d.manifest.target.build_files->0@[i as int];
            let included = exists|n: int|
                {
                    &&& 0 <= n < d.paths@.len()
                    &&& parts@.len() <= (#[trigger] d.paths@[n]).parts@.len()
                    &&& forall|j: int|
                        0 <= j < parts@.len() ==> d.paths@[n].parts@[j]@ == (#[trigger] parts@[j])@
                };
            &&& !exists <==> out.action == PublishAction::Done(
                Err::<(), PublishError>(PublishError::BuildFileMissing(name)),
            )
            &&& exists && !included <==> out.action == PublishAction::Done(
                Err::<(), PublishError>(PublishError::BuildFileNotIncluded(name)),
            )
            &&& exists && included ==> (out.state matches PublishState::BuildFiles(d2, k) && k == i
                + 1 && d2.manifest == d.manifest && d2.paths == d.paths
                && d2.build_shown@.len() == d.build_shown@.len() + 1 && d2.build_shown@[
                d.build_shown@.len() as int]@ == (if is_file {
                name@
            } else {
                name@ + "/*"@
            }))
        }),
{
    let prefix = part_views(parts@);
    assert forall|n: int| 0 <= n < d.paths@.len() implies prefix.is_prefix_of(d.paths@[n]@) == (
    parts@.len() <= (#[trigger] d.paths@[n]).parts@.len() && forall|j: int|
        0 <= j < parts@.len() ==> d.paths@[n].parts@[j]@ == (#[trigger] parts@[j])@) by {
        let whole = d.paths@[n]@;
        assert(whole.len() == d.paths@[n].parts@.len() && prefix.len() == parts@.len());
        if prefix.is_prefix_of(whole) {
            assert forall|j: int| 0 <= j < parts@.len() implies d.paths@[n].parts@[j]@ == (
            #[trigger] parts@[j])@ by {
                assert(prefix[j] == whole.subrange(0, prefix.len() as int)[j]);
            }
        }
        if parts@.len() <= d.paths@[n].parts@.len() && (forall|j: int|
            0 <= j < parts@.len() ==> d.paths@[n].parts@[j]@ == (#[trigger] parts@[j])@) {
            assert(prefix =~= whole.subrange(0, prefix.len() as int)) by {
                assert forall|j: int| 0 <= j < prefix.len() implies prefix[j] == whole[j] by {
                    assert(d.paths@[n].parts@[j]@ == parts@[j]@);
                }
            }
        }
    }
    if let PublishState::BuildFiles(d2, k) = out.state {
        let a = text::texts(d2.build_shown@);
        let b = text::texts(d.build_shown@);
        assert(a.len() == d2.build_shown@.len() && b.len() == d.build_shown@.len());
        assert(a[b.len() as int] == d2.build_shown@[b.len() as int]@);
    }
}

/// Each script of the target is read, from its path, and after all of them come the files.
pub proof fn every_script_is_read(
    cmd: PublishCommand,
    project: Project,
    rules: Rules,
    d: Draft,
    i: usize,
    out: PublishStep,
)
    requires
        is_step(
            cmd,
            project,
            rules,
            PublishState::Scripts(d, i),
            PublishEvent::Proceed,
            out,
        ),
    ensures
        ({
            let scripts = match d.manifest.target.scripts {
                Some(scripts) => scripts@,
                None => Seq::<Script>::empty(),
            };
            if i < scripts.len() {
                out.action == PublishAction::ReadFile(scripts[i as int].path) && out.state
                    == PublishState::AwaitScript(d, i)
            } else {
                out.state == PublishState::Files(d, 0)
            }
        }),
{
}

/// A script must be a file that is there and can be read, and is then looked up at its path.
pub proof fn scripts_are_files(
    cmd: PublishCommand,
    project: Project,
    rules: Rules,
    d: Draft,
    i: usize,
    read: ReadOutcome,
    out: PublishStep,
)
    requires
        awaits(PublishState::AwaitScript(d, i), PublishEvent::FileRead(read)),
        is_step(
            cmd,
            project,
            rules,
            PublishState::AwaitScript(d, i),
            PublishEvent::FileRead(read),
            out,
        ),
    ensures
        ({
            let script = d.manifest.target.scripts->0@[i as int];
            match read {
                ReadOutcome::NotFound => out.action == PublishAction::Done(
                    Err::<(), PublishError>(PublishError::ScriptMissing(script.name)),
                ),
                ReadOutcome::IsDirectory => out.action == PublishAction::Done(
                    Err::<(), PublishError>(PublishError::ScriptIsDirectory(script.name)),
                ),
                ReadOutcome::Failed(cause) => out.action == PublishAction::Done(
                    Err::<(), PublishError>(
                        PublishError::Outside(PublishStage::ReadScript(script.name), cause),
                    ),
                ),
                ReadOutcome::Contents(contents) => out.action == PublishAction::CanonicalizeFile(
                    script.path,
                ) && out.state == PublishState::AwaitScriptPath(d, i, contents),
            }
        }),
{
}

/// A script whose code is valid is among the files of the package, none of the others is
/// lost or added, and nothing else changes. That it had to be added is told.
pub proof fn scripts_are_taken_in(
    cmd: PublishCommand,
    project: Project,
    rules: Rules,
    d: Draft,
    i: usize,
    contents: String,
    file: FilePath,
    out: PublishStep,
)
    requires
        awaits(
            PublishState::AwaitScriptPath(d, i, contents),
            PublishEvent::Canonical(Ok::<FilePath, Failure>(file)),
        ),
        is_step(
            cmd,
            project,
            rules,
            PublishState::AwaitScriptPath(d, i, contents),
            PublishEvent::Canonical(Ok::<FilePath, Failure>(file)),
            out,
        ),
        !(out.state is AwaitScriptErrors),
    ensures
        !cmd.skip_validation && luau_errors(contents@).len() > 0 <==> out.action
            == PublishAction::Done(Err::<(), PublishError>(PublishError::InvalidLuau)),
        cmd.skip_validation || luau_errors(contents@).len() == 0 ==> (out.state matches
            PublishState::Scripts(d2, k) && k == i + 1 && d2.manifest == d.manifest
            && d2.build_shown == d.build_shown && (forall|p: Seq<PartView>| #[trigger]
            path_views(d2.paths@).contains(p) <==> p == part_views(file.parts@) || path_views(
                d.paths@,
            ).contains(p)) && out.said@ == (if path_views(d.paths@).contains(
            part_views(file.parts@),
        ) {
            Seq::<Notice>::empty()
        } else {
            let script = d.manifest.target.scripts->0@[i as int];
            seq![Notice::ScriptAdded { name: script.name, path: script.path }]
        })),
{
    adding_a_path(d.paths@, file);
}

/// Every file that belongs to the package must be there. It is added to the archive if it is
/// a regular file with a name other than that of the manifest, which comes last; whatever
/// else there is, is passed over.
pub proof fn regular_files_are_packed(
    cmd: PublishCommand,
    project: Project,
    rules: Rules,
    d: Draft,
    i: usize,
    exists: bool,
    is_file: bool,
    shown: String,
    out: PublishStep,
)
    requires
        awaits(PublishState::AwaitFile(d, i), PublishEvent::File { exists, is_file, shown }),
        is_step(
            cmd,
            project,
            rules,
            PublishState::AwaitFile(d, i),
            (PublishEvent::File { exists, is_file, shown }),
            out,
        ),
    ensures
        ({
            let parts = d.paths@[i as int].parts@;
            let named = parts.len() > 0 && parts[parts.len() - 1] is Normal;
            let own = text::same_ignoring_case(
                parts[parts.len() - 1]->Normal_0@,
                "pesde.toml"@,
            );
            &&& !exists <==> out.action == PublishAction::Done(
                Err::<(), PublishError>(PublishError::FileMissing(shown)),
            )
            &&& exists && !named <==> out.action == PublishAction::Done(
                Err::<(), PublishError>(PublishError::NoFileName),
            )
            &&& out.action == PublishAction::AppendFile(i) <==> exists && named && is_file && !own
            &&& exists && named && (!is_file || own) ==> (out.state matches PublishState::Files(
                d2,
                k,
            ) && d2 == d && k == i + 1)
        }),
{
    let parts = d.paths@[i as int].parts@;
    if parts.len() > 0 {
        assert(d.paths@[i as int]@.last() == parts[parts.len() - 1]@);
    }
}

/// The user is shown what will be published and is asked, unless this is a dry run or the
/// user agreed to everything in advance; then the package is packed at once.
pub proof fn user_is_asked(
    cmd: PublishCommand,
    project: Project,
    rules: Rules,
    d: Draft,
    out: PublishStep,
)
    requires
        is_step(cmd, project, rules, PublishState::Summary(d), PublishEvent::Proceed, out),
    ensures
        out.said@.len() == 2 && out.said@[0] == Notice::PleaseConfirm && out.said@[1] is Summary,
        out.action == PublishAction::Confirm <==> !cmd.dry_run && !cmd.yes,
        out.action == PublishAction::Confirm ==> out.state == PublishState::AwaitConfirm(d),
        out.action == PublishAction::Pack <==> cmd.dry_run || cmd.yes,
        out.action == PublishAction::Pack ==> out.state == PublishState::AwaitArchive(d),
{
}

/// A package is packed if and only if the user agrees; one who does not is told that the
/// publication was given up, which is no error.
pub proof fn answer_of_the_user_counts(
    cmd: PublishCommand,
    project: Project,
    rules: Rules,
    d: Draft,
    agreed: bool,
    out: PublishStep,
)
    requires
        is_step(
            cmd,
            project,
            rules,
            PublishState::AwaitConfirm(d),
            PublishEvent::Confirmed(Ok::<bool, Failure>(agreed)),
            out,
        ),
    ensures
        agreed ==> out.action == PublishAction::Pack && out.state == PublishState::AwaitArchive(d)
            && out.said@.len() == 0,
        !agreed ==> out.action == PublishAction::Done(Ok::<(), PublishError>(())) && out.state
            == PublishState::Finished && out.said@ == seq![Notice::Aborted],
{
}

/// A dry run ends once the archive is written.
pub proof fn dry_runs_end_with_the_archive(
    cmd: PublishCommand,
    project: Project,
    rules: Rules,
    s: PublishState,
    out: PublishStep,
    r: Result<(), Failure>,
)
    requires
        awaits(s, PublishEvent::Written(r)),
        is_step(cmd, project, rules, s, PublishEvent::Written(r), out),
    ensures
        out.state == PublishState::Finished,
        r is Ok ==> out.action == PublishAction::Done(Ok::<(), PublishError>(())) && out.said@
            == seq![Notice::DryRunWritten],
        r matches Err(cause) ==> out.action == PublishAction::Done(
            Err::<(), PublishError>(PublishError::Outside(PublishStage::WriteTarball, cause)),
        ),
{
}

} // verus!
