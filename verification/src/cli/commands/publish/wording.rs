//! What the user is told over a publication.

use super::errors::{
    error_causes, error_text, export_name, stage_text, Export, PublishError, PublishStage,
};
use super::notices::{notice_text, notice_tone, Notice, Tone};
use super::steps::Draft;
use super::summary::{path_texts, script_names, summary};
use crate::project::TargetKind;
use crate::text;
use crate::version::version_text;
use vstd::prelude::*;

verus! {

/// What is said of the work that failed, where something is.
pub proof fn wording_of_stages(e: Export, n: String)
    ensures
        stage_text(PublishStage::ReadManifest) == Some("failed to read manifest"@),
        stage_text(PublishStage::ReadLockfile) == None::<Seq<char>>,
        stage_text(PublishStage::FindEngines) == None::<Seq<char>>,
        stage_text(PublishStage::DependencyTarget)
            == Some("failed to get target of dependency node"@),
        stage_text(PublishStage::CanonicalizePackage)
            == Some("failed to canonicalize package directory"@),
        stage_text(PublishStage::ListFiles) == Some("failed to get included files"@),
        stage_text(PublishStage::ReadExport(e)) == Some("failed to read "@ + export_name(e)),
        stage_text(PublishStage::CanonicalizeExport(e))
            == Some("failed to canonicalize "@ + export_name(e)),
        stage_text(PublishStage::ReadScript(n)) == Some("failed to read script "@ + n@),
        stage_text(PublishStage::CanonicalizeScript(n))
            == Some("failed to canonicalize script "@ + n@),
        stage_text(PublishStage::OpenFile(n)) == Some("failed to read `"@ + n@ + "`"@),
        stage_text(PublishStage::AppendFile) == None::<Seq<char>>,
        stage_text(PublishStage::ResolveWorkspace) == Some("failed to resolve workspace package"@),
        stage_text(PublishStage::ReadMember) == Some("failed to read workspace package manifest"@),
        stage_text(PublishStage::ParseMember)
            == Some("failed to parse workspace package manifest"@),
        stage_text(PublishStage::Confirm) == None::<Seq<char>>,
        stage_text(PublishStage::TempManifest) == None::<Seq<char>>,
        stage_text(PublishStage::SerializeManifest) == Some("failed to serialize manifest"@),
        stage_text(PublishStage::WriteTempManifest) == Some("failed to write temp manifest file"@),
        stage_text(PublishStage::RewindTempManifest)
            == Some("failed to rewind temp manifest file"@),
        stage_text(PublishStage::AppendManifest) == None::<Seq<char>>,
        stage_text(PublishStage::FinishArchive) == Some("failed to finish archive"@),
        stage_text(PublishStage::RefreshSource) == Some("failed to refresh source"@),
        stage_text(PublishStage::ReadConfig) == Some("failed to get source config"@),
        stage_text(PublishStage::WriteTarball) == None::<Seq<char>>,
        stage_text(PublishStage::SendRequest) == Some("failed to send request"@),
        stage_text(PublishStage::ResponseText) == Some("failed to get response text"@),
        export_name(Export::Lib) == "lib path"@,
        export_name(Export::Bin) == "bin path"@,
{
}

/// What is said of each error.
pub proof fn wording_of_errors(x: Export, n: String, p: String, max: usize, by: usize)
    ensures
        error_text(PublishError::NoExports) == "no exports found in target"@,
        error_text(PublishError::NoBuildFiles) == "no build files found in target"@,
        error_text(PublishError::OutdatedLockfile)
            == "outdated lockfile, please run the install command first"@,
        error_text(PublishError::NonRobloxDependency)
            == "roblox packages may not depend on non-roblox packages"@,
        error_text(PublishError::GitIncluded) == "git directory was included, please remove it"@,
        error_text(PublishError::ProjectFileIncluded(n))
            == "default.project.json was included at `"@ + n@
            + "`, this should be generated by the roblox_sync_config_generator script upon dependants installation"@,
        error_text((PublishError::ForbiddenFile { name: n, path: p })) == "forbidden file "@ + n@
            + " was included at `"@ + p@ + "`"@,
        error_text(PublishError::ForbiddenEntry(n)) == "forbidden file "@ + n@
            + " was included.\ninfo: if this was a toolchain manager's manifest file, do not include it due to it possibly messing with user scripts\ninfo: otherwise, the file was deemed unnecessary, if you don't understand why, please contact the maintainers"@,
        error_text(PublishError::ExportMissing(x)) == export_name(x) + " does not exist"@,
        error_text(PublishError::ExportIsDirectory(x)) == export_name(x) + " must point to a file"@,
        error_text(PublishError::InvalidLuau) == "failed to validate Luau file"@,
        error_text(PublishError::ExportEmpty(x))
            == export_name(x) + " must contain at least one part"@,
        error_text(PublishError::ExportOutside(x))
            == export_name(x) + " must be within project directory"@,
        error_text(PublishError::BuildFileMissing(n)) == "build file "@ + n@ + " does not exist"@,
        error_text(PublishError::BuildFileNotIncluded(n)) == "build file "@ + n@
            + " is not included, please add it"@,
        error_text(PublishError::ScriptMissing(n)) == "script "@ + n@ + " does not exist"@,
        error_text(PublishError::ScriptIsDirectory(n))
            == "script "@ + n@ + " must point to a file"@,
        error_text(PublishError::FileMissing(n)) == "included file `"@ + n@ + "` does not exist"@,
        error_text(PublishError::NoFileName) == "failed to get file name"@,
        error_text(PublishError::IndexNotFound(n))
            == "index "@ + n@ + " not found in indices field"@,
        error_text(PublishError::WallyIndexNotFound(n)) == "index "@ + n@
            + " not found in wally_indices field"@,
        error_text(PublishError::NoWorkspaceVersions) == "no versions found for workspace package"@,
        error_text(PublishError::NoWorkspaceDir) == "failed to get workspace directory"@,
        error_text((PublishError::InvalidVersion { sign: n, cause: p }))
            == "failed to parse version for "@ + n@,
        error_text(PublishError::NoDefaultIndex)
            == "missing default index in workspace package manifest"@,
        error_text(PublishError::PathDependency)
            == "path dependencies are not allowed in published packages"@,
        error_text(PublishError::MissingIndex(n)) == "missing index "@ + n@,
        error_text((PublishError::ArchiveTooLarge { max, by }))
            == "archive size exceeds maximum size of "@
            + text::decimal(max as nat) + " bytes by "@ + text::decimal(by as nat) + " bytes"@,
        error_text(PublishError::VersionExists) == "package version already exists"@,
        error_text(PublishError::Unauthorized) == "unauthorized to publish under this scope"@,
        error_text(PublishError::InvalidPackage(n)) == "invalid package: "@ + n@,
        error_text((PublishError::Refused { status: n, text: p }))
            == "failed to publish package: "@ + n@ + " ("@
            + p@ + ")"@,
{
}

/// An error of outside work is told by what is said of the work, with the error as its cause;
/// where nothing is said of the work, the error stands for itself. That a version cannot be
/// read has a cause too; no other error has.
pub proof fn causes_of_errors(e: PublishError)
    ensures
        e matches PublishError::Outside(stage, f) ==> match stage_text(stage) {
            Some(t) => error_text(e) == t && error_causes(e) == seq![f.message@] + text::texts(
                f.causes@,
            ),
            None => error_text(e) == f.message@ && error_causes(e) == text::texts(f.causes@),
        },
        e matches PublishError::InvalidVersion { sign, cause } ==> error_causes(e) == seq![cause@],
        !(e is Outside) && !(e is InvalidVersion) ==> error_causes(e).len() == 0,
{
}

/// What each notice says.
pub proof fn wording_of_notices(x: Export, n: String, p: String, list: Vec<String>)
    ensures
        notice_text((Notice::NowPublishing { name: n, target: p }))
            == "[now publishing "@ + n@ + " "@ + p@
            + "]"@,
        notice_text(Notice::Private) == "package is private, refusing to publish"@,
        notice_text(Notice::ManifestAdded) == "pesde.toml"@ + " was not included, adding it"@,
        notice_text(Notice::NoReadme) == "no README file included, consider adding one"@,
        notice_text(Notice::NoDocs) == "docs directory not included, consider adding one"@,
        notice_text((Notice::ExportAdded { export: x, path: n }))
            == export_name(x) + " was not included, adding "@
            + n@,
        notice_text((Notice::BuildFileAdded { export: x, file: n })) == export_name(x)
            + " was not in build files, adding "@ + n@,
        notice_text(Notice::ManifestInBuildFiles) == "pesde.toml"@
            + " is in build files, please remove it"@,
        notice_text((Notice::ScriptAdded { name: n, path: p }))
            == "script "@ + n@ + " was not included, adding "@
            + p@,
        notice_text((Notice::InvalidLuau { file: n, errors: list }))
            == n@ + " is not a valid Luau file:\n"@
            + text::joined(text::bulleted(text::texts(list@)), "\n"@),
        notice_text(Notice::PleaseConfirm) == "please confirm the following information:"@,
        notice_text(Notice::Summary(list)) == text::joined(text::texts(list@), "\n"@),
        notice_text(Notice::Aborted) == "publish aborted"@,
        notice_text(Notice::DryRunWritten) == "(dry run) package written to package.tar.gz"@,
        notice_text(Notice::Published(n)) == n@,
{
}

/// How a notice is told: errors and successes as such, and what was added or is missing as a
/// warning.
pub proof fn tone_of_notices(n: Notice)
    ensures
        notice_tone(n) == Tone::Title <==> n is NowPublishing,
        notice_tone(n) == Tone::Error <==> n is Private || n is InvalidLuau || n is Aborted,
        notice_tone(n) == Tone::Heading <==> n is PleaseConfirm,
        notice_tone(n) == Tone::Plain <==> n is Summary,
        notice_tone(n) == Tone::Success <==> n is DryRunWritten || n is Published,
        notice_tone(n) == Tone::Warning <==> n is ManifestAdded || n is NoReadme || n is NoDocs
            || n is ExportAdded || n is BuildFileAdded || n is ManifestInBuildFiles || n is ScriptAdded,
{
}

/// A text, or what is said where there is none.
pub open spec fn said_of(t: Option<String>) -> Seq<char> {
    match t {
        Some(s) => s@,
        None => "(none)"@,
    }
}

/// The user is shown the name, the version and all else that describes the package, what its
/// target exports, and each of its files: for Roblox what is built, and for other targets
/// what is run and the scripts.
pub proof fn summary_shows_the_package(d: Draft)
    ensures
        ({
            let lines = summary(d);
            let m = d.manifest;
            let roblox = m.target.kind == TargetKind::Roblox || m.target.kind
                == TargetKind::RobloxServer;
            let authors = if m.authors@.len() == 0 {
                "(none)"@
            } else {
                text::joined(Seq::new(m.authors@.len(), |i: int| m.authors@[i]@), ", "@)
            };
            let scripts = match m.target.scripts {
                Some(scripts) => if scripts@.len() == 0 {
                    "(none)"@
                } else {
                    text::joined(Seq::new(scripts@.len(), |i: int| scripts@[i].name@), ", "@)
                },
                None => "(none)"@,
            };
            &&& lines.len() == (if roblox {
                10int
            } else {
                11
            })
            &&& lines[0] == "name: "@ + m.name@
            &&& lines[1] == "version: "@ + version_text(m.version@)
            &&& lines[2] == "description: "@ + said_of(m.description)
            &&& lines[3] == "license: "@ + said_of(m.license)
            &&& lines[4] == "authors: "@ + authors
            &&& lines[5] == "repository: "@ + said_of(m.repository)
            &&& lines[6] == "target: "@ + m.target.shown@
            &&& lines[7] == "\tlib path: "@ + said_of(m.target.lib_path)
            &&& roblox ==> lines[8] == "\tbuild files: "@ + text::joined(
                Seq::new(d.build_shown@.len(), |i: int| d.build_shown@[i]@),
                ", "@,
            )
            &&& !roblox ==> lines[8] == "\tbin path: "@ + said_of(m.target.bin_path)
            &&& !roblox ==> lines[9] == "\tscripts: "@ + scripts
            &&& lines[lines.len() - 1] == "includes: "@ + text::joined(
                Seq::new(d.paths@.len(), |i: int| d.paths@[i].text@),
                ", "@,
            )
        }),
{
    let m = d.manifest;
    assert(text::texts(m.authors@) =~= Seq::new(m.authors@.len(), |i: int| m.authors@[i]@));
    assert(text::texts(d.build_shown@) =~= Seq::new(
        d.build_shown@.len(),
        |i: int| d.build_shown@[i]@,
    ));
    assert(path_texts(d.paths@) =~= Seq::new(
        d.paths@.len(),
        |i: int| d.paths@[i].text@,
    ));
    if let Some(scripts) = m.target.scripts {
        assert(script_names(scripts@) =~= Seq::new(
            scripts@.len(),
            |i: int| scripts@[i].name@,
        ));
    }
}

} // verus!
