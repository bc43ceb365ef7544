//! What holds of every publication.

use super::errors::{Export, PublishError};
use super::included::{any_passes_through, ends_in, ignored_names, Rules};
use super::luau::luau_errors;
use super::notices::Notice;
use super::paths::{
    adding_a_path, file_name_of, passes_through, path_views, single, with_path, FilePath,
};
use super::steps::{
    after_admission, after_files, awaits, exported, is_step, manifest_added, must_ask,
    respecified, with_build_file, Draft, PublishAction, PublishCommand, PublishEvent,
    PublishState, PublishStep,
};
use super::summary::summary;
use crate::project::{section, Manifest, Project, SpecifierView, MANIFEST_FILE_NAME};
use crate::relative::{first_part, FirstPartView};
use crate::search;
use crate::text;
use vstd::prelude::*;

verus! {

/// The side conditions that a state relies on when its event comes.
pub open spec fn well_formed(s: PublishState) -> bool {
    match s {
        PublishState::AwaitDependency(_, types, seen) => seen < types.len(),
        PublishState::AwaitExport(d, which) => exported(d.manifest.target, which) is Some,
        PublishState::AwaitExportPath(d, which, _) => exported(d.manifest.target, which) is Some,
        PublishState::AwaitExportErrors(d, which, _) => exported(d.manifest.target, which) is Some,
        PublishState::AwaitBuildFile(d, i) => d.manifest.target.build_files is Some && i
            < d.manifest.target.build_files->0.len(),
        PublishState::AwaitScript(d, i) => d.manifest.target.scripts is Some && i
            < d.manifest.target.scripts->0.len(),
        PublishState::AwaitScriptPath(d, i, _) => d.manifest.target.scripts is Some && i
            < d.manifest.target.scripts->0.len(),
        PublishState::AwaitScriptErrors(d, i, _) => d.manifest.target.scripts is Some && i
            < d.manifest.target.scripts->0.len(),
        PublishState::AwaitFile(d, i) => i < d.paths.len(),
        PublishState::AwaitAppend(d, i) => i < d.paths.len(),
        PublishState::AwaitWorkspace(d, i) => i < d.manifest.dependencies.len()
            && d.manifest.dependencies@[i as int].specifier is Workspace,
        PublishState::AwaitMember(d, i) => i < d.manifest.dependencies.len()
            && d.manifest.dependencies@[i as int].specifier is Workspace,
        _ => true,
    }
}

/// Every step leads to a state whose side conditions hold.
#[verifier::rlimit(40)]
#[verifier::spinoff_prover]
pub proof fn steps_keep_well_formed(
    cmd: PublishCommand,
    project: Project,
    rules: Rules,
    s: PublishState,
    e: PublishEvent,
    out: PublishStep,
)
    requires
        well_formed(s),
        awaits(s, e),
        is_step(cmd, project, rules, s, e, out),
    ensures
        well_formed(out.state),
{
}

/// Whether the event is what the action asks for. Of an answer, the status is one
/// that HTTP has.
pub open spec fn answers(a: PublishAction, e: PublishEvent) -> bool {
    match a {
        PublishAction::Proceed => e is Proceed,
        PublishAction::ReadManifest => e is Manifest,
        PublishAction::ReadLockfile => e is Lockfile,
        PublishAction::FindEngines => e is Engines,
        PublishAction::InspectDependencies => e is Proceed,
        PublishAction::AwaitDependency => e is DependencyTarget,
        PublishAction::CanonicalizePackage => e is PackageDir,
        PublishAction::ListFiles => e is Files,
        PublishAction::ReadFile(_) => e is FileRead,
        PublishAction::CanonicalizeFile(_) => e is Canonical,
        PublishAction::ParseLuau(_) => e is Parsed,
        PublishAction::StatBuildFile(_) => e is BuildFile,
        PublishAction::StatFile(_) => e is File,
        PublishAction::AppendFile(_) => e is Appended,
        PublishAction::ResolveWorkspace(_) => e is Workspace,
        PublishAction::ReadMember(_) => e is Member,
        PublishAction::Confirm => e is Confirmed,
        PublishAction::Pack => e is Archived,
        PublishAction::Refresh(_) => e is Refreshed,
        PublishAction::ReadConfig(_) => e is Config,
        PublishAction::WriteTarball => e is Written,
        PublishAction::Upload { .. } => e matches PublishEvent::Response(r) && (r is Ok ==> 100
            <= r->Ok_0.status <= 999),
        PublishAction::Done(_) => false,
    }
}

/// Whether a target is one of a direct dependency.
pub open spec fn in_range(s: PublishState, e: PublishEvent) -> bool {
    s matches PublishState::AwaitDependency(_, types, _) ==> (e
        matches PublishEvent::DependencyTarget(i, _) ==> i < types.len())
}

/// Whoever does what a step asks for, and answers with what came of it, can take
/// the next step.
#[verifier::rlimit(40)]
#[verifier::spinoff_prover]
pub proof fn answers_are_awaited(
    cmd: PublishCommand,
    project: Project,
    rules: Rules,
    s: PublishState,
    e: PublishEvent,
    out: PublishStep,
    next: PublishEvent,
)
    requires
        well_formed(s),
        awaits(s, e),
        is_step(cmd, project, rules, s, e, out),
        answers(out.action, next),
        in_range(out.state, next),
    ensures
        awaits(out.state, next),
{
    steps_keep_well_formed(cmd, project, rules, s, e, out);
}

/// A publication from its start on: the states that it passed through, and the
/// event and the outcome of each step.
pub open spec fn is_run(
    cmd: PublishCommand,
    project: Project,
    rules: Rules,
    states: Seq<PublishState>,
    events: Seq<PublishEvent>,
    outs: Seq<PublishStep>,
) -> bool {
    &&& states.len() == events.len() + 1
    &&& outs.len() == events.len()
    &&& states[0] == PublishState::AwaitManifest
    &&& forall|i: int|
        #![trigger events[i]]
        0 <= i < events.len() ==> {
            &&& awaits(states[i], events[i])
            &&& is_step(cmd, project, rules, states[i], events[i], outs[i])
            &&& states[i + 1] == outs[i].state
        }
}

/// The states that come after the user was asked.
pub open spec fn past_consent(s: PublishState) -> bool {
    match s {
        PublishState::AwaitArchive(_) => true,
        PublishState::AwaitRefresh(_, _) => true,
        PublishState::AwaitConfig(_, _) => true,
        PublishState::AwaitTarball => true,
        PublishState::AwaitResponse => true,
        _ => false,
    }
}

/// Whether the user has said yes before the event with that index.
pub open spec fn confirmed_before(events: Seq<PublishEvent>, k: int) -> bool {
    exists|j: int| 0 <= j < k && #[trigger] events[j] == PublishEvent::Confirmed(Ok(true))
}

proof fn consent_so_far(
    cmd: PublishCommand,
    project: Project,
    rules: Rules,
    states: Seq<PublishState>,
    events: Seq<PublishEvent>,
    outs: Seq<PublishStep>,
    k: int,
)
    requires
        is_run(cmd, project, rules, states, events, outs),
        0 <= k <= events.len(),
    ensures
        past_consent(states[k]) && must_ask(cmd) ==> confirmed_before(events, k),
    decreases k,
{
    if k > 0 {
        consent_so_far(cmd, project, rules, states, events, outs, k - 1);
        let e = events[k - 1];
        assert(is_step(cmd, project, rules, states[k - 1], e, outs[k - 1]));
        if past_consent(states[k]) && must_ask(cmd) {
            if past_consent(states[k - 1]) {
                let j = choose|j: int|
                    0 <= j < k - 1 && #[trigger] events[j] == PublishEvent::Confirmed(Ok(true));
                assert(events[j] == PublishEvent::Confirmed(Ok(true)));
            } else {
                assert(e == PublishEvent::Confirmed(Ok(true)));
            }
        }
    }
}

/// A package is sent to the index only if it is no dry run and the user agreed,
/// in advance or when asked.
pub proof fn upload_needs_consent(
    cmd: PublishCommand,
    project: Project,
    rules: Rules,
    states: Seq<PublishState>,
    events: Seq<PublishEvent>,
    outs: Seq<PublishStep>,
    k: int,
)
    requires
        is_run(cmd, project, rules, states, events, outs),
        0 <= k < events.len(),
        outs[k].action is Upload,
    ensures
        !cmd.dry_run,
        cmd.yes || confirmed_before(events, k),
{
    consent_so_far(cmd, project, rules, states, events, outs, k);
    let e = events[k];
    assert(is_step(cmd, project, rules, states[k], e, outs[k]));
}

/// A user who agreed to all prompts, or who publishes nothing, is asked nothing.
pub proof fn no_prompt_where_agreed(
    cmd: PublishCommand,
    project: Project,
    rules: Rules,
    s: PublishState,
    e: PublishEvent,
    out: PublishStep,
)
    requires
        awaits(s, e),
        is_step(cmd, project, rules, s, e, out),
        cmd.yes || cmd.dry_run,
    ensures
        !(out.action is Confirm),
{
}

/// Where validation is skipped, no file is refused for its syntax.
pub proof fn skipped_validation_refuses_nothing(
    cmd: PublishCommand,
    project: Project,
    rules: Rules,
    s: PublishState,
    e: PublishEvent,
    out: PublishStep,
)
    requires
        awaits(s, e),
        is_step(cmd, project, rules, s, e, out),
        cmd.skip_validation,
    ensures
        out.action != PublishAction::Done(Err::<(), PublishError>(PublishError::InvalidLuau)),
{
}

/// All that is wrong with the code of a file, as it is known when the event comes: what
/// the parser finds in it, or found.
pub open spec fn known_errors(s: PublishState, e: PublishEvent) -> Option<Seq<Seq<char>>> {
    match (s, e) {
        (PublishState::AwaitExportPath(_, _, code), PublishEvent::Canonical(Ok(_))) => Some(
            luau_errors(code@),
        ),
        (PublishState::AwaitExportErrors(_, _, _), PublishEvent::Parsed(errors)) => Some(
            text::texts(errors@),
        ),
        (PublishState::AwaitScriptPath(_, _, code), PublishEvent::Canonical(Ok(_))) => Some(
            luau_errors(code@),
        ),
        (PublishState::AwaitScriptErrors(_, _, _), PublishEvent::Parsed(errors)) => Some(
            text::texts(errors@),
        ),
        _ => None,
    }
}

/// A file that is refused for its syntax is refused with every error of the parser, and no
/// file with an error gets past the check. What is left to be parsed is the code that was
/// read.
pub proof fn every_luau_error_is_listed(
    cmd: PublishCommand,
    project: Project,
    rules: Rules,
    s: PublishState,
    e: PublishEvent,
    out: PublishStep,
)
    requires
        awaits(s, e),
        is_step(cmd, project, rules, s, e, out),
    ensures
        out.action == PublishAction::Done(Err::<(), PublishError>(PublishError::InvalidLuau))
            ==> !cmd.skip_validation && (known_errors(s, e) matches Some(errors) && errors.len()
            > 0 && out.said@.len() == 1 && (out.said@[0] matches Notice::InvalidLuau {
            errors: told,
            ..
        } && text::texts(told@) == errors)),
        !cmd.skip_validation && (known_errors(s, e) matches Some(errors) && errors.len() > 0)
            ==> out.action is ParseLuau || out.action == PublishAction::Done(
            Err::<(), PublishError>(PublishError::InvalidLuau),
        ),
        out.action matches PublishAction::ParseLuau(code) ==> match s {
            PublishState::AwaitExportPath(_, _, read) => code == read,
            PublishState::AwaitScriptPath(_, _, read) => code == read,
            _ => false,
        },
{
}

/// The manifest is not packed with the other files: it is packed at the end, as
/// it was changed.
pub proof fn manifest_is_packed_last(
    cmd: PublishCommand,
    project: Project,
    rules: Rules,
    s: PublishState,
    e: PublishEvent,
    out: PublishStep,
    i: usize,
)
    requires
        awaits(s, e),
        is_step(cmd, project, rules, s, e, out),
        out.action == PublishAction::AppendFile(i),
    ensures
        out.state matches PublishState::AwaitAppend(d, k) && k == i && (file_name_of(
            d.paths@[i as int]@,
        ) matches Some(name) && !text::same_ignoring_case(name, MANIFEST_FILE_NAME@)),
{
}

/// What is sent to the index is not larger than the index takes.
pub proof fn upload_fits(
    cmd: PublishCommand,
    project: Project,
    rules: Rules,
    s: PublishState,
    e: PublishEvent,
    out: PublishStep,
)
    requires
        awaits(s, e),
        is_step(cmd, project, rules, s, e, out),
        out.action is Upload,
    ensures
        s matches PublishState::AwaitConfig(size, url) && e matches PublishEvent::Config(Ok(config))
            && size <= config.max_archive_size,
{
}

/// The publication of a private package is over once its manifest was read.
pub proof fn private_is_not_published(
    cmd: PublishCommand,
    project: Project,
    rules: Rules,
    states: Seq<PublishState>,
    events: Seq<PublishEvent>,
    outs: Seq<PublishStep>,
)
    requires
        is_run(cmd, project, rules, states, events, outs),
        events.len() > 0,
        events[0] matches PublishEvent::Manifest(Ok(m)) && m.private,
    ensures
        events.len() == 1,
        outs[0].action == PublishAction::Done(Ok(())),
{
    let e = events[0];
    assert(is_step(cmd, project, rules, states[0], e, outs[0]));
    if events.len() > 1 {
        let next = events[1];
        assert(awaits(states[1], next));
    }
}

/// The draft that a state holds, if it holds one.
pub open spec fn draft_of(s: PublishState) -> Option<Draft> {
    match s {
        PublishState::Exports(d, _) => Some(d),
        PublishState::AwaitExport(d, _) => Some(d),
        PublishState::AwaitExportPath(d, _, _) => Some(d),
        PublishState::AwaitExportErrors(d, _, _) => Some(d),
        PublishState::BuildFiles(d, _) => Some(d),
        PublishState::AwaitBuildFile(d, _) => Some(d),
        PublishState::Scripts(d, _) => Some(d),
        PublishState::AwaitScript(d, _) => Some(d),
        PublishState::AwaitScriptPath(d, _, _) => Some(d),
        PublishState::AwaitScriptErrors(d, _, _) => Some(d),
        PublishState::Files(d, _) => Some(d),
        PublishState::AwaitFile(d, _) => Some(d),
        PublishState::AwaitAppend(d, _) => Some(d),
        PublishState::Dependencies(d, _) => Some(d),
        PublishState::AwaitWorkspace(d, _) => Some(d),
        PublishState::AwaitMember(d, _) => Some(d),
        PublishState::Summary(d) => Some(d),
        PublishState::AwaitConfirm(d) => Some(d),
        PublishState::AwaitArchive(d) => Some(d),
        _ => None,
    }
}

/// The manifest is among the files.
pub open spec fn includes_manifest(d: Draft) -> bool {
    path_views(d.paths@).contains(single(MANIFEST_FILE_NAME@))
}

proof fn listing_includes_manifest(listed: Seq<FilePath>, paths: Seq<FilePath>)
    requires
        manifest_added(listed, paths),
    ensures
        path_views(paths).contains(single(MANIFEST_FILE_NAME@)),
        path_views(listed).no_duplicates() ==> path_views(paths).no_duplicates(),
{
    if !path_views(listed).contains(single(MANIFEST_FILE_NAME@)) {
        assert(path_views(paths)[paths.len() - 1] == paths.last()@);
        assert(path_views(paths) =~= path_views(listed).push(single(MANIFEST_FILE_NAME@))) by {
            assert forall|i: int| 0 <= i < listed.len() implies path_views(paths)[i] == path_views(
                listed,
            )[i] by {
                assert(paths[i] == paths.drop_last()[i]);
            }
        }
    }
}

/// The draft that an admitted export leads to.
pub proof fn admitted(d: Draft, which: Export, file: FilePath, out: PublishStep) -> (d2: Draft)
    requires
        after_admission(d, which, file, out),
        draft_of(out.state) is Some,
    ensures
        draft_of(out.state) == Some(d2),
        d2.paths@ == with_path(d.paths@, file),
        d2.build_shown == d.build_shown,
        first_part(exported(d.manifest.target, which)->0@) matches Some(
            FirstPartView::Normal(first),
        ) && with_build_file(d.manifest, first, d2.manifest),
{
    draft_of(out.state)->0
}

/// How the files of a package change in a step: none is taken away, and none
/// comes twice.
proof fn files_in_step(
    cmd: PublishCommand,
    project: Project,
    rules: Rules,
    s: PublishState,
    e: PublishEvent,
    out: PublishStep,
)
    requires
        awaits(s, e),
        is_step(cmd, project, rules, s, e, out),
        draft_of(s) is Some ==> includes_manifest(draft_of(s)->0),
    ensures
        draft_of(out.state) is Some ==> includes_manifest(draft_of(out.state)->0),
        draft_of(out.state) is Some && draft_of(s) is Some && path_views(
            draft_of(s)->0.paths@,
        ).no_duplicates() ==> path_views(draft_of(out.state)->0.paths@).no_duplicates(),
        draft_of(out.state) is Some && draft_of(s) is None ==> (e matches PublishEvent::Files(
            Ok(listed),
        ) && (path_views(listed@).no_duplicates() ==> path_views(
            draft_of(out.state)->0.paths@,
        ).no_duplicates())),
{
    match (s, e) {
        (PublishState::AwaitFiles(m), PublishEvent::Files(Ok(listed))) => {
            if draft_of(out.state) is Some {
                listing_includes_manifest(listed@, draft_of(out.state)->0.paths@);
            }
        },
        (PublishState::AwaitExportPath(d, which, contents), PublishEvent::Canonical(Ok(file))) => {
            adding_a_path(d.paths@, file);
            if draft_of(out.state) is Some && !(out.state is AwaitExportErrors) {
                let d2 = admitted(d, which, file, out);
            }
        },
        (PublishState::AwaitExportErrors(d, which, file), _) => {
            adding_a_path(d.paths@, file);
            if draft_of(out.state) is Some {
                let d2 = admitted(d, which, file, out);
            }
        },
        (PublishState::AwaitScriptPath(d, i, contents), PublishEvent::Canonical(Ok(file))) => {
            adding_a_path(d.paths@, file);
        },
        (PublishState::AwaitScriptErrors(d, i, file), _) => {
            adding_a_path(d.paths@, file);
        },
        _ => {},
    }
}

/// Whatever happens, the manifest is among the files that are published.
pub proof fn manifest_is_published(
    cmd: PublishCommand,
    project: Project,
    rules: Rules,
    states: Seq<PublishState>,
    events: Seq<PublishEvent>,
    outs: Seq<PublishStep>,
    k: int,
)
    requires
        is_run(cmd, project, rules, states, events, outs),
        0 <= k <= events.len(),
    ensures
        draft_of(states[k]) is Some ==> includes_manifest(draft_of(states[k])->0),
    decreases k,
{
    if k > 0 {
        manifest_is_published(cmd, project, rules, states, events, outs, k - 1);
        let e = events[k - 1];
        files_in_step(cmd, project, rules, states[k - 1], e, outs[k - 1]);
    }
}

/// If the listed files are distinct, no file is published twice.
pub proof fn files_stay_distinct(
    cmd: PublishCommand,
    project: Project,
    rules: Rules,
    states: Seq<PublishState>,
    events: Seq<PublishEvent>,
    outs: Seq<PublishStep>,
    k: int,
)
    requires
        is_run(cmd, project, rules, states, events, outs),
        0 <= k <= events.len(),
        forall|i: int|
            0 <= i < events.len() ==> (#[trigger] events[i] matches PublishEvent::Files(Ok(listed))
                ==> path_views(listed@).no_duplicates()),
    ensures
        draft_of(states[k]) is Some ==> path_views(
            draft_of(states[k])->0.paths@,
        ).no_duplicates(),
    decreases k,
{
    if k > 0 {
        files_stay_distinct(cmd, project, rules, states, events, outs, k - 1);
        manifest_is_published(cmd, project, rules, states, events, outs, k - 1);
        let e = events[k - 1];
        files_in_step(cmd, project, rules, states[k - 1], e, outs[k - 1]);
    }
}

/// A specifier that can be understood outside of the workspace.
pub open spec fn publishable(v: SpecifierView) -> bool {
    v is Pesde || v is Wally || v is Git
}

/// How many of the dependencies were dealt with, if the state is past that point.
pub open spec fn settled(s: PublishState) -> nat {
    match s {
        PublishState::Dependencies(d, i) => if i <= d.manifest.dependencies@.len() {
            i as nat
        } else {
            d.manifest.dependencies@.len()
        },
        PublishState::AwaitWorkspace(d, i) => i as nat,
        PublishState::AwaitMember(d, i) => i as nat,
        PublishState::Summary(d) => d.manifest.dependencies@.len(),
        PublishState::AwaitConfirm(d) => d.manifest.dependencies@.len(),
        PublishState::AwaitArchive(d) => d.manifest.dependencies@.len(),
        _ => 0,
    }
}

/// The dependencies that were dealt with can be published.
pub open spec fn settled_publishable(s: PublishState) -> bool {
    forall|j: int|
        #![trigger draft_of(s)->0.manifest.dependencies@[j]]
        0 <= j < settled(s) && j < draft_of(s)->0.manifest.dependencies@.len() ==> publishable(
            draft_of(s)->0.manifest.dependencies@[j].specifier@,
        )
}

proof fn settled_in_step(
    cmd: PublishCommand,
    project: Project,
    rules: Rules,
    s: PublishState,
    e: PublishEvent,
    out: PublishStep,
)
    requires
        is_step(cmd, project, rules, s, e, out),
        awaits(s, e),
        settled_publishable(s),
    ensures
        settled_publishable(out.state),
{
    match (s, e) {
        (PublishState::Dependencies(d, i), PublishEvent::Proceed) => {
            assert forall|j: int|
                #![trigger draft_of(out.state)->0.manifest.dependencies@[j]]
                0 <= j < settled(out.state) && j
                    < draft_of(out.state)->0.manifest.dependencies@.len() implies publishable(
                draft_of(out.state)->0.manifest.dependencies@[j].specifier@,
            ) by {
                if j < settled(s) {
                    assert(draft_of(s)->0.manifest.dependencies@[j]
                        == draft_of(out.state)->0.manifest.dependencies@[j]);
                }
            }
        },
        (PublishState::AwaitMember(d, i), PublishEvent::Member(r)) => {
            assert forall|j: int|
                #![trigger draft_of(out.state)->0.manifest.dependencies@[j]]
                0 <= j < settled(out.state) && j
                    < draft_of(out.state)->0.manifest.dependencies@.len() implies publishable(
                draft_of(out.state)->0.manifest.dependencies@[j].specifier@,
            ) by {
                if j < settled(s) {
                    assert(draft_of(s)->0.manifest.dependencies@[j]
                        == draft_of(out.state)->0.manifest.dependencies@[j]);
                }
            }
        },
        (PublishState::AwaitWorkspace(d, i), _) => {
            assert forall|j: int|
                #![trigger draft_of(out.state)->0.manifest.dependencies@[j]]
                0 <= j < settled(out.state) && j
                    < draft_of(out.state)->0.manifest.dependencies@.len() implies publishable(
                draft_of(out.state)->0.manifest.dependencies@[j].specifier@,
            ) by {
                assert(draft_of(s)->0.manifest.dependencies@[j]
                    == draft_of(out.state)->0.manifest.dependencies@[j]);
            }
        },
        (PublishState::Summary(d), _) => {
            assert(forall|j: int|
                draft_of(s)->0.manifest.dependencies@[j] == d.manifest.dependencies@[j]);
        },
        (PublishState::AwaitConfirm(d), _) => {
            assert(forall|j: int|
                draft_of(s)->0.manifest.dependencies@[j] == d.manifest.dependencies@[j]);
        },
        _ => {},
    }
}

proof fn settled_so_far(
    cmd: PublishCommand,
    project: Project,
    rules: Rules,
    states: Seq<PublishState>,
    events: Seq<PublishEvent>,
    outs: Seq<PublishStep>,
    k: int,
)
    requires
        is_run(cmd, project, rules, states, events, outs),
        0 <= k <= events.len(),
    ensures
        settled_publishable(states[k]),
    decreases k,
{
    if k > 0 {
        settled_so_far(cmd, project, rules, states, events, outs, k - 1);
        let e = events[k - 1];
        settled_in_step(cmd, project, rules, states[k - 1], e, outs[k - 1]);
    }
}

/// A manifest that is put into an archive has no dependency on a path or on a
/// workspace member.
pub proof fn published_dependencies_are_reachable(
    cmd: PublishCommand,
    project: Project,
    rules: Rules,
    states: Seq<PublishState>,
    events: Seq<PublishEvent>,
    outs: Seq<PublishStep>,
    k: int,
    d: Draft,
    j: int,
)
    requires
        is_run(cmd, project, rules, states, events, outs),
        0 <= k <= events.len(),
        states[k] == PublishState::AwaitArchive(d),
        0 <= j < d.manifest.dependencies@.len(),
    ensures
        publishable(d.manifest.dependencies@[j].specifier@),
{
    settled_so_far(cmd, project, rules, states, events, outs, k);
    assert(draft_of(states[k])->0.manifest.dependencies@[j] == d.manifest.dependencies@[j]);
}

/// A list of files with which a publication goes on holds nothing of the git
/// directory, no forbidden file and nothing that may not occur in a path.
pub proof fn listed_files_are_allowed(
    rules: Rules,
    m: Manifest,
    listed: Vec<FilePath>,
    out: PublishStep,
    d: Draft,
    i: int,
    name: Seq<char>,
)
    requires
        after_files(rules, m, Ok(listed), out),
        out.state == PublishState::Exports(d, Export::Lib),
        0 <= i < d.paths@.len(),
    ensures
        !single(".git"@).is_prefix_of(d.paths@[i]@),
        !ends_in(d.paths@[i]@, text::texts(rules.forbidden_files@)),
        ignored_names(rules).contains(name) ==> !passes_through(d.paths@[i]@, name),
{
    let paths = d.paths@;
    let forbidden = text::texts(rules.forbidden_files@);
    let names = ignored_names(rules);
    let bad_file = |i: int| ends_in(paths[i]@, forbidden);
    let bad_name = |j: int| any_passes_through(paths, names[j]);
    search::lemma_first_index_bounds(paths.len() as int, bad_file);
    search::lemma_first_index_bounds(names.len() as int, bad_name);
    assert(!bad_file(i));
    if names.contains(name) {
        let j = choose|j: int| 0 <= j < names.len() && names[j] == name;
        assert(!bad_name(j));
        assert(!any_passes_through(paths, name));
    }
}

/// What is packed is what the user was shown.
pub proof fn packed_as_shown(
    cmd: PublishCommand,
    project: Project,
    rules: Rules,
    s: PublishState,
    e: PublishEvent,
    out: PublishStep,
    d: Draft,
)
    requires
        awaits(s, e),
        is_step(cmd, project, rules, s, e, out),
        out.state == PublishState::AwaitArchive(d) || out.state == PublishState::AwaitConfirm(d),
    ensures
        s == PublishState::Summary(d) || (s == PublishState::AwaitConfirm(d) && e
            == PublishEvent::Confirmed(Ok(true))),
        s == PublishState::Summary(d) ==> (out.said@[1] matches Notice::Summary(lines)
            && text::texts(lines@) == summary(d)),
{
}

/// How far a publication is from its end, in large.
pub open spec fn stage(s: PublishState) -> nat {
    match s {
        PublishState::AwaitManifest => 20,
        PublishState::AwaitLockfile(_) => 19,
        PublishState::AwaitEngines(_, _) => 18,
        PublishState::Inspect(_, _, _) => 17,
        PublishState::AwaitDependency(_, _, _) => 17,
        PublishState::AwaitPackageDir(_) => 16,
        PublishState::AwaitFiles(_) => 15,
        PublishState::Exports(_, which) => if which == Export::Lib {
            14
        } else {
            13
        },
        PublishState::AwaitExport(_, which) => if which == Export::Lib {
            14
        } else {
            13
        },
        PublishState::AwaitExportPath(_, which, _) => if which == Export::Lib {
            14
        } else {
            13
        },
        PublishState::AwaitExportErrors(_, which, _) => if which == Export::Lib {
            14
        } else {
            13
        },
        PublishState::BuildFiles(_, _) => 12,
        PublishState::AwaitBuildFile(_, _) => 12,
        PublishState::Scripts(_, _) => 11,
        PublishState::AwaitScript(_, _) => 11,
        PublishState::AwaitScriptPath(_, _, _) => 11,
        PublishState::AwaitScriptErrors(_, _, _) => 11,
        PublishState::Files(_, _) => 10,
        PublishState::AwaitFile(_, _) => 10,
        PublishState::AwaitAppend(_, _) => 10,
        PublishState::Dependencies(_, _) => 9,
        PublishState::AwaitWorkspace(_, _) => 9,
        PublishState::AwaitMember(_, _) => 9,
        PublishState::Summary(_) => 8,
        PublishState::AwaitConfirm(_) => 7,
        PublishState::AwaitArchive(_) => 6,
        PublishState::AwaitRefresh(_, _) => 5,
        PublishState::AwaitConfig(_, _) => 4,
        PublishState::AwaitTarball => 3,
        PublishState::AwaitResponse => 3,
        PublishState::Finished => 0,
    }
}

/// How far a publication is from the end of its stage: four for each item that
/// is left, and less for one that is under way.
pub open spec fn left(s: PublishState) -> int {
    match s {
        PublishState::Inspect(_, types, i) => 4 * (types@.len() - i),
        PublishState::AwaitDependency(_, types, i) => 4 * (types@.len() - i) - 1,
        PublishState::Exports(_, _) => 4,
        PublishState::AwaitExport(_, _) => 3,
        PublishState::AwaitExportPath(_, _, _) => 2,
        PublishState::AwaitExportErrors(_, _, _) => 1,
        PublishState::BuildFiles(d, i) => 4 * (build_count(d) - i),
        PublishState::AwaitBuildFile(d, i) => 4 * (build_count(d) - i) - 1,
        PublishState::Scripts(d, i) => 4 * (script_count(d) - i),
        PublishState::AwaitScript(d, i) => 4 * (script_count(d) - i) - 1,
        PublishState::AwaitScriptPath(d, i, _) => 4 * (script_count(d) - i) - 2,
        PublishState::AwaitScriptErrors(d, i, _) => 4 * (script_count(d) - i) - 3,
        PublishState::Files(d, i) => 4 * (d.paths@.len() - i),
        PublishState::AwaitFile(d, i) => 4 * (d.paths@.len() - i) - 1,
        PublishState::AwaitAppend(d, i) => 4 * (d.paths@.len() - i) - 2,
        PublishState::Dependencies(d, i) => 4 * (d.manifest.dependencies@.len() - i),
        PublishState::AwaitWorkspace(d, i) => 4 * (d.manifest.dependencies@.len() - i) - 1,
        PublishState::AwaitMember(d, i) => 4 * (d.manifest.dependencies@.len() - i) - 2,
        _ => 0,
    }
}

pub open spec fn build_count(d: Draft) -> int {
    match d.manifest.target.build_files {
        Some(files) => files@.len() as int,
        None => 0,
    }
}

pub open spec fn script_count(d: Draft) -> int {
    match d.manifest.target.scripts {
        Some(scripts) => scripts@.len() as int,
        None => 0,
    }
}

/// Whether the second state is nearer to the end than the first.
pub open spec fn nearer(s: PublishState, t: PublishState) -> bool {
    stage(t) < stage(s) || (stage(t) == stage(s) && 0 <= left(t) < left(s))
}

/// Every step brings a publication nearer to its end, so it comes to one.
#[verifier::rlimit(40)]
#[verifier::spinoff_prover]
pub proof fn steps_make_progress(
    cmd: PublishCommand,
    project: Project,
    rules: Rules,
    s: PublishState,
    e: PublishEvent,
    out: PublishStep,
)
    requires
        well_formed(s),
        awaits(s, e),
        is_step(cmd, project, rules, s, e, out),
    ensures
        nearer(s, out.state),
{
    match s {
        PublishState::AwaitExportPath(d, which, contents) => {
            assert(nearer(s, out.state)) by {
                if draft_of(out.state) is Some && !(out.state is AwaitExportErrors) {
                    if let PublishEvent::Canonical(Ok(file)) = e {
                        let d2 = admitted(d, which, file, out);
                    }
                }
            }
        },
        PublishState::AwaitExportErrors(d, which, file) => {
            assert(nearer(s, out.state)) by {
                if draft_of(out.state) is Some {
                    let d2 = admitted(d, which, file, out);
                }
            }
        },
        PublishState::BuildFiles(_, _) => {
            assert(nearer(s, out.state));
        },
        PublishState::AwaitBuildFile(_, _) => {
            assert(nearer(s, out.state));
        },
        PublishState::Scripts(_, _) => {
            assert(nearer(s, out.state));
        },
        PublishState::AwaitScriptPath(_, _, _) => {
            assert(nearer(s, out.state));
        },
        PublishState::AwaitScriptErrors(_, _, _) => {
            assert(nearer(s, out.state));
        },
        PublishState::Files(_, _) => {
            assert(nearer(s, out.state));
        },
        PublishState::AwaitFile(_, _) => {
            assert(nearer(s, out.state));
        },
        PublishState::Dependencies(_, _) => {
            assert(nearer(s, out.state));
        },
        PublishState::AwaitWorkspace(_, _) => {
            assert(nearer(s, out.state));
        },
        PublishState::AwaitMember(_, _) => {
            assert(nearer(s, out.state));
        },
        _ => {
            assert(nearer(s, out.state));
        },
    }
}

/// The files that are built stay in ascending order.
pub open spec fn build_files_ascend(d: Draft) -> bool {
    d.manifest.target.build_files is Some ==> search::ascending(
        text::texts(d.manifest.target.build_files->0@),
    )
}

proof fn admitting_keeps_order(d: Draft, which: Export, file: FilePath, out: PublishStep)
    requires
        after_admission(d, which, file, out),
        draft_of(out.state) is Some,
        build_files_ascend(d),
    ensures
        build_files_ascend(draft_of(out.state)->0),
        forall|name: Seq<char>|
            d.manifest.target.build_files is Some && #[trigger] text::texts(
                d.manifest.target.build_files->0@,
            ).contains(name) ==> draft_of(out.state)->0.manifest.target.build_files is Some
                && text::texts(
                draft_of(out.state)->0.manifest.target.build_files->0@,
            ).contains(name),
{
    let d2 = admitted(d, which, file, out);
    if let Some(FirstPartView::Normal(first)) = first_part(
        exported(d.manifest.target, which)->0@,
    ) {
        if d.manifest.target.build_files is Some {
            search::insertion_keeps_order(
                text::texts(d.manifest.target.build_files->0@),
                first,
            );
        }
    }
}

/// If a manifest lists the files that are built in ascending order, a step
/// keeps them so, and takes none away.
pub proof fn build_files_stay_sorted(
    cmd: PublishCommand,
    project: Project,
    rules: Rules,
    s: PublishState,
    e: PublishEvent,
    out: PublishStep,
    name: Seq<char>,
)
    requires
        awaits(s, e),
        is_step(cmd, project, rules, s, e, out),
        draft_of(s) is Some,
        build_files_ascend(draft_of(s)->0),
        draft_of(out.state) is Some,
    ensures
        build_files_ascend(draft_of(out.state)->0),
        draft_of(s)->0.manifest.target.build_files is Some && text::texts(
            draft_of(s)->0.manifest.target.build_files->0@,
        ).contains(name) ==> draft_of(out.state)->0.manifest.target.build_files is Some
            && text::texts(
            draft_of(out.state)->0.manifest.target.build_files->0@,
        ).contains(name),
{
    match (s, e) {
        (PublishState::AwaitExportPath(d, which, contents), PublishEvent::Canonical(Ok(file))) => {
            if !(out.state is AwaitExportErrors) {
                admitting_keeps_order(d, which, file, out);
            }
        },
        (PublishState::AwaitExportErrors(d, which, file), _) => {
            admitting_keeps_order(d, which, file, out);
        },
        _ => {},
    }
}

/// The manifest that a state holds, if it holds one.
pub open spec fn manifest_of(s: PublishState) -> Option<Manifest> {
    match s {
        PublishState::AwaitLockfile(m) => Some(m),
        PublishState::AwaitEngines(m, _) => Some(m),
        PublishState::Inspect(m, _, _) => Some(m),
        PublishState::AwaitDependency(m, _, _) => Some(m),
        PublishState::AwaitPackageDir(m) => Some(m),
        PublishState::AwaitFiles(m) => Some(m),
        _ => match draft_of(s) {
            Some(d) => Some(d.manifest),
            None => None,
        },
    }
}

proof fn respecifying_keeps_order(d: Draft, i: usize, v: SpecifierView, d2: Draft)
    requires
        respecified(d, i, v, d2),
        d.manifest.well_formed(),
    ensures
        d2.manifest.well_formed(),
{
    let list = d.manifest.dependencies@;
    let new = d2.manifest.dependencies@;
    assert forall|a: int, b: int| 0 <= a < b < new.len() implies section((#[trigger] new[a]).ty)
        < section((#[trigger] new[b]).ty) || (new[a].ty == new[b].ty && text::before(
        new[a].alias@,
        new[b].alias@,
    )) by {
        assert(new[a].alias == list[a].alias && new[a].ty == list[a].ty);
        assert(new[b].alias == list[b].alias && new[b].ty == list[b].ty);
    }
}

/// A step keeps a manifest well-formed while it is changed for the index: no name comes to
/// stand for two things, and what is in order stays so.
#[verifier::rlimit(40)]
#[verifier::spinoff_prover]
pub proof fn steps_keep_manifests_well_formed(
    cmd: PublishCommand,
    project: Project,
    rules: Rules,
    s: PublishState,
    e: PublishEvent,
    out: PublishStep,
)
    requires
        well_formed(s),
        awaits(s, e),
        is_step(cmd, project, rules, s, e, out),
        manifest_of(s) is Some ==> manifest_of(s)->0.well_formed(),
        e matches PublishEvent::Manifest(Ok(m)) ==> m.well_formed(),
    ensures
        manifest_of(out.state) is Some ==> manifest_of(out.state)->0.well_formed(),
{
    match (s, e) {
        (PublishState::AwaitExportPath(d, which, contents), PublishEvent::Canonical(Ok(file))) => {
            if draft_of(out.state) is Some && !(out.state is AwaitExportErrors) {
                admitting_keeps_order(d, which, file, out);
                let d2 = admitted(d, which, file, out);
            }
        },
        (PublishState::AwaitExportErrors(d, which, file), _) => {
            if draft_of(out.state) is Some {
                admitting_keeps_order(d, which, file, out);
                let d2 = admitted(d, which, file, out);
            }
        },
        (PublishState::Dependencies(d, i), _) => {
            if let PublishState::Dependencies(d2, k) = out.state {
                if i < d.manifest.dependencies@.len() {
                    let v = d2.manifest.dependencies@[i as int].specifier@;
                    if respecified(d, i, v, d2) {
                        respecifying_keeps_order(d, i, v, d2);
                    }
                }
            }
        },
        (PublishState::AwaitMember(d, i), _) => {
            if let PublishState::Dependencies(d2, k) = out.state {
                let v = d2.manifest.dependencies@[i as int].specifier@;
                respecifying_keeps_order(d, i, v, d2);
            }
        },
        _ => {},
    }
}

/// If the manifest that was read is well-formed, so is the one that is published.
pub proof fn manifests_stay_well_formed(
    cmd: PublishCommand,
    project: Project,
    rules: Rules,
    states: Seq<PublishState>,
    events: Seq<PublishEvent>,
    outs: Seq<PublishStep>,
    k: int,
)
    requires
        is_run(cmd, project, rules, states, events, outs),
        0 <= k <= events.len(),
        forall|i: int|
            0 <= i < events.len() ==> (#[trigger] events[i] matches PublishEvent::Manifest(Ok(m))
                ==> m.well_formed()),
    ensures
        well_formed(states[k]),
        manifest_of(states[k]) is Some ==> manifest_of(states[k])->0.well_formed(),
    decreases k,
{
    if k > 0 {
        manifests_stay_well_formed(cmd, project, rules, states, events, outs, k - 1);
        let e = events[k - 1];
        steps_keep_well_formed(cmd, project, rules, states[k - 1], e, outs[k - 1]);
        steps_keep_manifests_well_formed(cmd, project, rules, states[k - 1], e, outs[k - 1]);
    }
}

} // verus!
