//! What can end a publication, and what is said on the way.

use crate::failure::Failure;
use crate::text;
use vstd::prelude::*;

verus! {

/// The two paths that a target can export.
#[derive(Debug, PartialEq, Eq, Clone, Copy, Structural)]
pub enum Export {
    Lib,
    Bin,
}

/// How an export is called in messages.
pub open spec fn export_name(e: Export) -> Seq<char> {
    match e {
        Export::Lib => "lib path"@,
        Export::Bin => "bin path"@,
    }
}

impl Export {
    /// How the export is called in messages.
    pub fn name(&self) -> (r: &'static str)
        ensures
            r@ == export_name(*self),
    {
        match self {
            Export::Lib => "lib path",
            Export::Bin => "bin path",
        }
    }
}

/// Work that is done outside of this library and can fail.
#[derive(Debug)]
pub enum PublishStage {
    ReadManifest,
    ReadLockfile,
    FindEngines,
    DependencyTarget,
    CanonicalizePackage,
    ListFiles,
    ReadExport(Export),
    CanonicalizeExport(Export),
    ReadScript(String),
    CanonicalizeScript(String),
    OpenFile(String),
    AppendFile,
    ResolveWorkspace,
    ReadMember,
    ParseMember,
    Confirm,
    TempManifest,
    SerializeManifest,
    WriteTempManifest,
    RewindTempManifest,
    AppendManifest,
    FinishArchive,
    RefreshSource,
    ReadConfig,
    WriteTarball,
    SendRequest,
    ResponseText,
}

/// What is said of work that failed; nothing where its own error stands alone.
pub open spec fn stage_text(s: PublishStage) -> Option<Seq<char>> {
    match s {
        PublishStage::ReadManifest => Some("failed to read manifest"@),
        PublishStage::ReadLockfile => None,
        PublishStage::FindEngines => None,
        PublishStage::DependencyTarget => Some("failed to get target of dependency node"@),
        PublishStage::CanonicalizePackage => Some("failed to canonicalize package directory"@),
        PublishStage::ListFiles => Some("failed to get included files"@),
        PublishStage::ReadExport(e) => Some("failed to read "@ + export_name(e)),
        PublishStage::CanonicalizeExport(e) => Some("failed to canonicalize "@ + export_name(e)),
        PublishStage::ReadScript(n) => Some("failed to read script "@ + n@),
        PublishStage::CanonicalizeScript(n) => Some("failed to canonicalize script "@ + n@),
        PublishStage::OpenFile(p) => Some("failed to read `"@ + p@ + "`"@),
        PublishStage::AppendFile => None,
        PublishStage::ResolveWorkspace => Some("failed to resolve workspace package"@),
        PublishStage::ReadMember => Some("failed to read workspace package manifest"@),
        PublishStage::ParseMember => Some("failed to parse workspace package manifest"@),
        PublishStage::Confirm => None,
        PublishStage::TempManifest => None,
        PublishStage::SerializeManifest => Some("failed to serialize manifest"@),
        PublishStage::WriteTempManifest => Some("failed to write temp manifest file"@),
        PublishStage::RewindTempManifest => Some("failed to rewind temp manifest file"@),
        PublishStage::AppendManifest => None,
        PublishStage::FinishArchive => Some("failed to finish archive"@),
        PublishStage::RefreshSource => Some("failed to refresh source"@),
        PublishStage::ReadConfig => Some("failed to get source config"@),
        PublishStage::WriteTarball => None,
        PublishStage::SendRequest => Some("failed to send request"@),
        PublishStage::ResponseText => Some("failed to get response text"@),
    }
}

impl PublishStage {
    /// What is said of work that failed.
    pub fn describe(&self) -> (r: Option<String>)
        ensures
            match r {
                Some(t) => stage_text(*self) == Some(t@),
                None => stage_text(*self) is None,
            },
    {
        let fixed = match self {
            PublishStage::ReadExport(e) => {
                return Some(text::cat("failed to read ", e.name()));
            },
            PublishStage::CanonicalizeExport(e) => {
                return Some(text::cat("failed to canonicalize ", e.name()));
            },
            PublishStage::ReadScript(n) => {
                return Some(text::cat("failed to read script ", n.as_str()));
            },
            PublishStage::CanonicalizeScript(n) => {
                return Some(text::cat("failed to canonicalize script ", n.as_str()));
            },
            PublishStage::OpenFile(p) => {
                return Some(text::cat3("failed to read `", p.as_str(), "`"));
            },
            PublishStage::ReadLockfile => {
                return None;
            },
            PublishStage::FindEngines => {
                return None;
            },
            PublishStage::AppendFile => {
                return None;
            },
            PublishStage::Confirm => {
                return None;
            },
            PublishStage::TempManifest => {
                return None;
            },
            PublishStage::AppendManifest => {
                return None;
            },
            PublishStage::WriteTarball => {
                return None;
            },
            PublishStage::ReadManifest => "failed to read manifest",
            PublishStage::DependencyTarget => "failed to get target of dependency node",
            PublishStage::CanonicalizePackage => "failed to canonicalize package directory",
            PublishStage::ListFiles => "failed to get included files",
            PublishStage::ResolveWorkspace => "failed to resolve workspace package",
            PublishStage::ReadMember => "failed to read workspace package manifest",
            PublishStage::ParseMember => "failed to parse workspace package manifest",
            PublishStage::SerializeManifest => "failed to serialize manifest",
            PublishStage::WriteTempManifest => "failed to write temp manifest file",
            PublishStage::RewindTempManifest => "failed to rewind temp manifest file",
            PublishStage::FinishArchive => "failed to finish archive",
            PublishStage::RefreshSource => "failed to refresh source",
            PublishStage::ReadConfig => "failed to get source config",
            PublishStage::SendRequest => "failed to send request",
            PublishStage::ResponseText => "failed to get response text",
        };
        Some(fixed.to_owned())
    }
}

/// Why a package was not published.
#[derive(Debug)]
pub enum PublishError {
    /// Work outside of this library failed, with this error.
    Outside(PublishStage, Failure),
    NoExports,
    NoBuildFiles,
    OutdatedLockfile,
    NonRobloxDependency,
    GitIncluded,
    /// A Roblox project file was included at this path.
    ProjectFileIncluded(String),
    /// A file that may not be published was included.
    ForbiddenFile { name: String, path: String },
    /// A file or directory that may not be published was included.
    ForbiddenEntry(String),
    ExportMissing(Export),
    ExportIsDirectory(Export),
    InvalidLuau,
    ExportEmpty(Export),
    ExportOutside(Export),
    BuildFileMissing(String),
    BuildFileNotIncluded(String),
    ScriptMissing(String),
    ScriptIsDirectory(String),
    /// The included file at this path does not exist.
    FileMissing(String),
    NoFileName,
    IndexNotFound(String),
    WallyIndexNotFound(String),
    NoWorkspaceVersions,
    NoWorkspaceDir,
    /// The version of a workspace member with this sign before it is no requirement.
    InvalidVersion { sign: String, cause: String },
    NoDefaultIndex,
    PathDependency,
    MissingIndex(String),
    /// The archive has this many bytes more than are allowed.
    ArchiveTooLarge { max: usize, by: usize },
    VersionExists,
    Unauthorized,
    InvalidPackage(String),
    /// Any other answer than success: the status and the text that came with it.
    Refused { status: String, text: String },
}

/// What is said of an error, without its cause.
pub open spec fn error_text(e: PublishError) -> Seq<char> {
    match e {
        PublishError::Outside(stage, cause) => match stage_text(stage) {
            Some(t) => t,
            None => cause.message@,
        },
        PublishError::NoExports => "no exports found in target"@,
        PublishError::NoBuildFiles => "no build files found in target"@,
        PublishError::OutdatedLockfile => {
            "outdated lockfile, please run the install command first"@
        },
        PublishError::NonRobloxDependency => {
            "roblox packages may not depend on non-roblox packages"@
        },
        PublishError::GitIncluded => "git directory was included, please remove it"@,
        PublishError::ProjectFileIncluded(path) => "default.project.json was included at `"@ + path@
            + "`, this should be generated by the roblox_sync_config_generator script upon dependants installation"@,
        PublishError::ForbiddenFile { name, path } => "forbidden file "@ + name@
            + " was included at `"@ + path@ + "`"@,
        PublishError::ForbiddenEntry(name) => "forbidden file "@ + name@
            + " was included.\ninfo: if this was a toolchain manager's manifest file, do not include it due to it possibly messing with user scripts\ninfo: otherwise, the file was deemed unnecessary, if you don't understand why, please contact the maintainers"@,
        PublishError::ExportMissing(x) => export_name(x) + " does not exist"@,
        PublishError::ExportIsDirectory(x) => export_name(x) + " must point to a file"@,
        PublishError::InvalidLuau => "failed to validate Luau file"@,
        PublishError::ExportEmpty(x) => export_name(x) + " must contain at least one part"@,
        PublishError::ExportOutside(x) => export_name(x) + " must be within project directory"@,
        PublishError::BuildFileMissing(n) => "build file "@ + n@ + " does not exist"@,
        PublishError::BuildFileNotIncluded(n) => "build file "@ + n@
            + " is not included, please add it"@,
        PublishError::ScriptMissing(n) => "script "@ + n@ + " does not exist"@,
        PublishError::ScriptIsDirectory(n) => "script "@ + n@ + " must point to a file"@,
        PublishError::FileMissing(p) => "included file `"@ + p@ + "` does not exist"@,
        PublishError::NoFileName => "failed to get file name"@,
        PublishError::IndexNotFound(n) => "index "@ + n@ + " not found in indices field"@,
        PublishError::WallyIndexNotFound(n) => "index "@ + n@
            + " not found in wally_indices field"@,
        PublishError::NoWorkspaceVersions => "no versions found for workspace package"@,
        PublishError::NoWorkspaceDir => "failed to get workspace directory"@,
        PublishError::InvalidVersion { sign, cause } => "failed to parse version for "@ + sign@,
        PublishError::NoDefaultIndex => "missing default index in workspace package manifest"@,
        PublishError::PathDependency => {
            "path dependencies are not allowed in published packages"@
        },
        PublishError::MissingIndex(n) => "missing index "@ + n@,
        PublishError::ArchiveTooLarge { max, by } => "archive size exceeds maximum size of "@
            + text::decimal(max as nat) + " bytes by "@ + text::decimal(by as nat) + " bytes"@,
        PublishError::VersionExists => "package version already exists"@,
        PublishError::Unauthorized => "unauthorized to publish under this scope"@,
        PublishError::InvalidPackage(t) => "invalid package: "@ + t@,
        PublishError::Refused { status, text: t } => "failed to publish package: "@ + status@ + " ("@
            + t@ + ")"@,
    }
}

/// What is said to have caused an error, and what caused that.
pub open spec fn error_causes(e: PublishError) -> Seq<Seq<char>> {
    match e {
        PublishError::Outside(stage, cause) => match stage_text(stage) {
            Some(_) => cause@,
            None => text::texts(cause.causes@),
        },
        PublishError::InvalidVersion { sign, cause } => seq![cause@],
        _ => Seq::empty(),
    }
}

impl PublishError {
    /// What is said of the error.
    pub fn message(&self) -> (r: String)
        ensures
            r@ == error_text(*self),
    {
        let fixed = match self {
            PublishError::Outside(stage, cause) => {
                return match stage.describe() {
                    Some(t) => t,
                    None => cause.message.clone(),
                };
            },
            PublishError::ProjectFileIncluded(path) => {
                return text::cat3(
                    "default.project.json was included at `",
                    path.as_str(),
                    "`, this should be generated by the roblox_sync_config_generator script upon dependants installation",
                );
            },
            PublishError::ForbiddenFile { name, path } => {
                return text::cat5(
                    "forbidden file ",
                    name.as_str(),
                    " was included at `",
                    path.as_str(),
                    "`",
                );
            },
            PublishError::ForbiddenEntry(name) => {
                return text::cat3(
                    "forbidden file ",
                    name.as_str(),
                    " was included.\ninfo: if this was a toolchain manager's manifest file, do not include it due to it possibly messing with user scripts\ninfo: otherwise, the file was deemed unnecessary, if you don't understand why, please contact the maintainers",
                );
            },
            PublishError::ExportMissing(x) => {
                return text::cat(x.name(), " does not exist");
            },
            PublishError::ExportIsDirectory(x) => {
                return text::cat(x.name(), " must point to a file");
            },
            PublishError::ExportEmpty(x) => {
                return text::cat(x.name(), " must contain at least one part");
            },
            PublishError::ExportOutside(x) => {
                return text::cat(x.name(), " must be within project directory");
            },
            PublishError::BuildFileMissing(n) => {
                return text::cat3("build file ", n.as_str(), " does not exist");
            },
            PublishError::BuildFileNotIncluded(n) => {
                return text::cat3("build file ", n.as_str(), " is not included, please add it");
            },
            PublishError::ScriptMissing(n) => {
                return text::cat3("script ", n.as_str(), " does not exist");
            },
            PublishError::ScriptIsDirectory(n) => {
                return text::cat3("script ", n.as_str(), " must point to a file");
            },
            PublishError::FileMissing(p) => {
                return text::cat3("included file `", p.as_str(), "` does not exist");
            },
            PublishError::IndexNotFound(n) => {
                return text::cat3("index ", n.as_str(), " not found in indices field");
            },
            PublishError::WallyIndexNotFound(n) => {
                return text::cat3("index ", n.as_str(), " not found in wally_indices field");
            },
            PublishError::InvalidVersion { sign, cause: _ } => {
                return text::cat("failed to parse version for ", sign.as_str());
            },
            PublishError::MissingIndex(n) => {
                return text::cat("missing index ", n.as_str());
            },
            PublishError::ArchiveTooLarge { max, by } => {
                return text::cat5(
                    "archive size exceeds maximum size of ",
                    text::decimal_text(*max as u64).as_str(),
                    " bytes by ",
                    text::decimal_text(*by as u64).as_str(),
                    " bytes",
                );
            },
            PublishError::InvalidPackage(t) => {
                return text::cat("invalid package: ", t.as_str());
            },
            PublishError::Refused { status, text: t } => {
                return text::cat5(
                    "failed to publish package: ",
                    status.as_str(),
                    " (",
                    t.as_str(),
                    ")",
                );
            },
            PublishError::NoExports => "no exports found in target",
            PublishError::NoBuildFiles => "no build files found in target",
            PublishError::OutdatedLockfile => {
                "outdated lockfile, please run the install command first"
            },
            PublishError::NonRobloxDependency => {
                "roblox packages may not depend on non-roblox packages"
            },
            PublishError::GitIncluded => "git directory was included, please remove it",
            PublishError::InvalidLuau => "failed to validate Luau file",
            PublishError::NoFileName => "failed to get file name",
            PublishError::NoWorkspaceVersions => "no versions found for workspace package",
            PublishError::NoWorkspaceDir => "failed to get workspace directory",
            PublishError::NoDefaultIndex => "missing default index in workspace package manifest",
            PublishError::PathDependency => {
                "path dependencies are not allowed in published packages"
            },
            PublishError::VersionExists => "package version already exists",
            PublishError::Unauthorized => "unauthorized to publish under this scope",
        };
        fixed.to_owned()
    }

    /// The error as it is told to the user.
    pub fn into_failure(self) -> (r: Failure)
        ensures
            r@ == seq![error_text(self)] + error_causes(self),
    {
        let message = self.message();
        let r = match self {
            PublishError::Outside(stage, cause) => match stage.describe() {
                Some(t) => cause.context(t.as_str()),
                None => cause,
            },
            PublishError::InvalidVersion { sign: _, cause } => Failure::new(cause).context(
                message.as_str(),
            ),
            _ => Failure::new(message),
        };
        assert(r@ =~= seq![error_text(self)] + error_causes(self));
        r
    }
}

} // verus!
