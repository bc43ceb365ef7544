//! How a publication goes on after each piece of work, and how it ends when one fails.

use super::errors::{Export, PublishError, PublishStage};
use super::included::Rules;
use super::luau::{is_fatal, is_readable, luau_tokens, TokenError};
use super::notices::Notice;
use super::paths::FilePath;
use super::steps::{
    awaits, is_step, luau_judgement, AppendFailure, MemberOutcome, PackStage, PublishAction,
    PublishCommand, PublishEvent, PublishState, PublishStep,
};
use crate::failure::Failure;
use crate::project::{DependencyType, Project};
use crate::text;
use vstd::prelude::*;

verus! {

/// What a failure in finishing an archive is put down to: the very piece of work that failed.
pub open spec fn blamed_on(s: PackStage, stage: PublishStage) -> bool {
    match s {
        PackStage::TempManifest => stage is TempManifest,
        PackStage::SerializeManifest => stage is SerializeManifest,
        PackStage::WriteTempManifest => stage is WriteTempManifest,
        PackStage::RewindTempManifest => stage is RewindTempManifest,
        PackStage::AppendManifest => stage is AppendManifest,
        PackStage::FinishArchive => stage is FinishArchive,
    }
}

/// Whether that is the failure that the event tells of, and the work that it came up in.
pub open spec fn tells_of(s: PublishState, e: PublishEvent, stage: PublishStage, f: Failure) -> bool {
    match e {
        PublishEvent::Manifest(Err(g)) => stage is ReadManifest && f == g,
        PublishEvent::Lockfile(Err(g)) => stage is ReadLockfile && f == g,
        PublishEvent::Engines(Err(g)) => stage is FindEngines && f == g,
        PublishEvent::DependencyTarget(_, Err(g)) => stage is DependencyTarget && f == g,
        PublishEvent::PackageDir(Err(g)) => stage is CanonicalizePackage && f == g,
        PublishEvent::Files(Err(g)) => stage is ListFiles && f == g,
        PublishEvent::Canonical(Err(g)) => f == g && match s {
            PublishState::AwaitExportPath(_, which, _) => stage
                == PublishStage::CanonicalizeExport(which),
            PublishState::AwaitScriptPath(d, i, _) => stage == PublishStage::CanonicalizeScript(
                d.manifest.target.scripts->0@[i as int].name,
            ),
            _ => false,
        },
        PublishEvent::Appended(Err(AppendFailure::Open(g))) => f == g && (s matches
            PublishState::AwaitAppend(d, i) && stage == PublishStage::OpenFile(
            d.paths@[i as int].text,
        )),
        PublishEvent::Appended(Err(AppendFailure::Append(g))) => f == g && stage is AppendFile,
        PublishEvent::Workspace(Err(g)) => stage is ResolveWorkspace && f == g,
        PublishEvent::Member(MemberOutcome::ReadFailed(g)) => stage is ReadMember && f == g,
        PublishEvent::Member(MemberOutcome::ParseFailed(g)) => stage is ParseMember && f == g,
        PublishEvent::Confirmed(Err(g)) => stage is Confirm && f == g,
        PublishEvent::Archived(Err((p, g))) => blamed_on(p, stage) && f == g,
        PublishEvent::Refreshed(Err(g)) => stage is RefreshSource && f == g,
        PublishEvent::Config(Err(g)) => stage is ReadConfig && f == g,
        PublishEvent::Written(Err(g)) => stage is WriteTarball && f == g,
        PublishEvent::Response(Err(g)) => stage is SendRequest && f == g,
        PublishEvent::Response(Ok(reply)) => match reply.text {
            Err(g) => stage is ResponseText && f == g,
            Ok(_) => false,
        },
        _ => false,
    }
}

/// Whether the event tells of work that failed.
pub open spec fn is_failure(e: PublishEvent) -> bool {
    match e {
        PublishEvent::Manifest(r) => r is Err,
        PublishEvent::Lockfile(r) => r is Err,
        PublishEvent::Engines(r) => r is Err,
        PublishEvent::DependencyTarget(_, r) => r is Err,
        PublishEvent::PackageDir(r) => r is Err,
        PublishEvent::Files(r) => r is Err,
        PublishEvent::Canonical(r) => r is Err,
        PublishEvent::Appended(r) => r is Err,
        PublishEvent::Workspace(r) => r is Err,
        PublishEvent::Member(r) => r is ReadFailed || r is ParseFailed,
        PublishEvent::Confirmed(r) => r is Err,
        PublishEvent::Archived(r) => r is Err,
        PublishEvent::Refreshed(r) => r is Err,
        PublishEvent::Config(r) => r is Err,
        PublishEvent::Written(r) => r is Err,
        PublishEvent::Response(r) => match r {
            Err(_) => true,
            Ok(reply) => reply.text is Err,
        },
        _ => false,
    }
}

/// Work that fails ends a publication with that failure, put down to the very work that
/// failed, and without another word.
#[verifier::spinoff_prover]
pub proof fn failures_are_put_down_to_their_work(
    cmd: PublishCommand,
    project: Project,
    rules: Rules,
    s: PublishState,
    e: PublishEvent,
    out: PublishStep,
)
    requires
        awaits(s, e),
        is_step(cmd, project, rules, s, e, out),
        is_failure(e),
    ensures
        out.state == PublishState::Finished,
        out.said@.len() == 0,
        out.action matches PublishAction::Done(Err(PublishError::Outside(stage, f))) && tells_of(
            s,
            e,
            stage,
            f,
        ),
{
}

/// How a publication goes on once a piece of work that decides nothing is done.
#[verifier::spinoff_prover]
pub proof fn work_follows_in_order(
    cmd: PublishCommand,
    project: Project,
    rules: Rules,
    s: PublishState,
    e: PublishEvent,
    out: PublishStep,
)
    requires
        awaits(s, e),
        is_step(cmd, project, rules, s, e, out),
    ensures
        e matches PublishEvent::Engines(Ok(_)) ==> (s matches PublishState::AwaitEngines(m, types)
            && out.action == PublishAction::InspectDependencies && out.state
            == PublishState::Inspect(m, types, 0)),
        s matches PublishState::Inspect(m, types, seen) ==> if seen < types@.len() {
            out.action == PublishAction::AwaitDependency && out.state
                == PublishState::AwaitDependency(m, types, seen)
        } else {
            out.action == PublishAction::CanonicalizePackage && out.state
                == PublishState::AwaitPackageDir(m)
        },
        e matches PublishEvent::PackageDir(Ok(_)) ==> (s matches PublishState::AwaitPackageDir(m)
            && out.action == PublishAction::ListFiles && out.state == PublishState::AwaitFiles(m)),
        s matches PublishState::Files(d, i) ==> if i < d.paths@.len() {
            out.action == PublishAction::StatFile(i) && out.state == PublishState::AwaitFile(d, i)
        } else {
            out.state == PublishState::Dependencies(d, 0)
        },
        e matches PublishEvent::Appended(Ok(_)) ==> (s matches PublishState::AwaitAppend(d, i)
            && (out.state matches PublishState::Files(d2, k) && d2 == d && k == i + 1)),
        e matches PublishEvent::Refreshed(Ok(_)) ==> (s matches PublishState::AwaitRefresh(
            size,
            url,
        ) && (out.state matches PublishState::AwaitConfig(n, u) && n == size && u == url)),
{
}

/// The target of a direct dependency may lack build files only if the dependency is for
/// development; any other ends the publication. Otherwise the next one is looked at.
pub proof fn dependencies_must_have_build_files(
    cmd: PublishCommand,
    project: Project,
    rules: Rules,
    s: PublishState,
    i: usize,
    lacks: bool,
    out: PublishStep,
)
    requires
        awaits(s, PublishEvent::DependencyTarget(i, Ok::<bool, Failure>(lacks))),
        is_step(
            cmd,
            project,
            rules,
            s,
            PublishEvent::DependencyTarget(i, Ok::<bool, Failure>(lacks)),
            out,
        ),
    ensures
        s matches PublishState::AwaitDependency(m, types, seen) && if lacks && (types@[i as int]
            == DependencyType::Standard || types@[i as int] == DependencyType::Peer) {
            out.action == PublishAction::Done(
                Err::<(), PublishError>(PublishError::NonRobloxDependency),
            )
        } else {
            out.state matches PublishState::Inspect(m2, types2, seen2) && m2 == m && types2
                == types && seen2 == seen + 1
        },
{
}

/// A file is accepted if and only if validation is skipped or nothing is wrong with its code;
/// if it is not, the file and all that is wrong are told.
pub proof fn valid_code_is_accepted(
    cmd: PublishCommand,
    file: Seq<char>,
    errors: Seq<Seq<char>>,
    r: Result<(), Notice>,
)
    requires
        luau_judgement(cmd, file, errors, r),
    ensures
        r is Ok <==> cmd.skip_validation || errors.len() == 0,
        r matches Err(n) ==> (n matches Notice::InvalidLuau { file: f, errors: told } && f@ == file
            && text::texts(told@) == errors),
{
}

/// The user is told which file is not valid: the one that the library path or the path of
/// what is run names, or the script, by its name.
pub proof fn invalid_files_are_named(
    cmd: PublishCommand,
    project: Project,
    rules: Rules,
    s: PublishState,
    e: PublishEvent,
    out: PublishStep,
)
    requires
        awaits(s, e),
        is_step(cmd, project, rules, s, e, out),
        out.action == PublishAction::Done(Err::<(), PublishError>(PublishError::InvalidLuau)),
    ensures
        out.said@.len() == 1,
        out.said@[0] matches Notice::InvalidLuau { file, errors } && match s {
            PublishState::AwaitExportPath(_, which, _) => file@ == "file at "@ + (if which
                == Export::Lib {
                "lib path"@
            } else {
                "bin path"@
            }),
            PublishState::AwaitExportErrors(_, which, _) => file@ == "file at "@ + (if which
                == Export::Lib {
                "lib path"@
            } else {
                "bin path"@
            }),
            PublishState::AwaitScriptPath(d, i, _) => file@ == "the `"@
                + d.manifest.target.scripts->0@[i as int].name@ + "` script"@,
            PublishState::AwaitScriptErrors(d, i, _) => file@ == "the `"@
                + d.manifest.target.scripts->0@[i as int].name@ + "` script"@,
            _ => false,
        },
{
}

/// Code that the parser may be handed has a token for all of it and for its end: the lexer
/// read at least one, and found nothing that there is no token for.
pub proof fn readable_code_has_all_tokens(code: Seq<char>)
    ensures
        is_readable(code) <==> luau_tokens(code).0 > 0 && !luau_tokens(code).1.contains(
            TokenError::UnexpectedToken,
        ) && !luau_tokens(code).1.contains(TokenError::InvalidSymbol),
{
    let errors = luau_tokens(code).1;
    if is_readable(code) {
        if errors.contains(TokenError::UnexpectedToken) {
            let i = choose|i: int|
                0 <= i < errors.len() && errors[i] == TokenError::UnexpectedToken;
            assert(!is_fatal(errors[i]));
        }
        if errors.contains(TokenError::InvalidSymbol) {
            let i = choose|i: int| 0 <= i < errors.len() && errors[i] == TokenError::InvalidSymbol;
            assert(!is_fatal(errors[i]));
        }
    } else if luau_tokens(code).0 > 0 {
        let i = choose|i: int| 0 <= i < errors.len() && is_fatal(#[trigger] errors[i]);
        assert(errors.contains(errors[i]));
    }
}

/// Code that the parser may be handed is judged at once, and any other is parsed apart unless
/// validation is skipped; its file is then taken up again with what was found.
pub proof fn unreadable_code_is_parsed_apart(
    cmd: PublishCommand,
    project: Project,
    rules: Rules,
    s: PublishState,
    file: FilePath,
    out: PublishStep,
)
    requires
        awaits(s, PublishEvent::Canonical(Ok::<FilePath, Failure>(file))),
        is_step(
            cmd,
            project,
            rules,
            s,
            PublishEvent::Canonical(Ok::<FilePath, Failure>(file)),
            out,
        ),
    ensures
        match s {
            PublishState::AwaitExportPath(d, which, contents) => if !cmd.skip_validation
                && !is_readable(contents@) {
                out.action == PublishAction::ParseLuau(contents) && out.state
                    == PublishState::AwaitExportErrors(d, which, file)
            } else {
                !(out.action is ParseLuau)
            },
            PublishState::AwaitScriptPath(d, i, contents) => if !cmd.skip_validation
                && !is_readable(contents@) {
                out.action == PublishAction::ParseLuau(contents) && out.state
                    == PublishState::AwaitScriptErrors(d, i, file)
            } else {
                !(out.action is ParseLuau)
            },
            _ => false,
        },
{
}

} // verus!
