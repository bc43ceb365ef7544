//! What is said to the user while a package is published.

use super::errors::{export_name, Export};
use crate::project::MANIFEST_FILE_NAME;
use crate::text;
use vstd::prelude::*;

verus! {

/// Something that is said to the user.
#[derive(Debug)]
pub enum Notice {
    NowPublishing { name: String, target: String },
    Private,
    ManifestAdded,
    NoReadme,
    NoDocs,
    ExportAdded { export: Export, path: String },
    BuildFileAdded { export: Export, file: String },
    ManifestInBuildFiles,
    ScriptAdded { name: String, path: String },
    /// A file is not valid Luau, for these reasons.
    InvalidLuau { file: String, errors: Vec<String> },
    PleaseConfirm,
    /// The lines that the user is asked to confirm.
    Summary(Vec<String>),
    Aborted,
    DryRunWritten,
    /// What the index answered.
    Published(String),
}

/// How a notice is marked.
#[derive(Debug, PartialEq, Eq, Clone, Copy, Structural)]
pub enum Tone {
    Plain,
    Heading,
    Title,
    Warning,
    Error,
    Success,
}

pub open spec fn notice_tone(n: Notice) -> Tone {
    match n {
        Notice::NowPublishing { .. } => Tone::Title,
        Notice::Private => Tone::Error,
        Notice::InvalidLuau { .. } => Tone::Error,
        Notice::Aborted => Tone::Error,
        Notice::PleaseConfirm => Tone::Heading,
        Notice::Summary(_) => Tone::Plain,
        Notice::DryRunWritten => Tone::Success,
        Notice::Published(_) => Tone::Success,
        _ => Tone::Warning,
    }
}

/// What a notice says.
pub open spec fn notice_text(n: Notice) -> Seq<char> {
    match n {
        Notice::NowPublishing { name, target } => "[now publishing "@ + name@ + " "@ + target@
            + "]"@,
        Notice::Private => "package is private, refusing to publish"@,
        Notice::ManifestAdded => MANIFEST_FILE_NAME@ + " was not included, adding it"@,
        Notice::NoReadme => "no README file included, consider adding one"@,
        Notice::NoDocs => "docs directory not included, consider adding one"@,
        Notice::ExportAdded { export, path } => export_name(export) + " was not included, adding "@
            + path@,
        Notice::BuildFileAdded { export, file } => export_name(export)
            + " was not in build files, adding "@ + file@,
        Notice::ManifestInBuildFiles => MANIFEST_FILE_NAME@
            + " is in build files, please remove it"@,
        Notice::ScriptAdded { name, path } => "script "@ + name@ + " was not included, adding "@
            + path@,
        Notice::InvalidLuau { file, errors } => file@ + " is not a valid Luau file:\n"@
            + text::joined(text::bulleted(text::texts(errors@)), "\n"@),
        Notice::PleaseConfirm => "please confirm the following information:"@,
        Notice::Summary(lines) => text::joined(text::texts(lines@), "\n"@),
        Notice::Aborted => "publish aborted"@,
        Notice::DryRunWritten => "(dry run) package written to package.tar.gz"@,
        Notice::Published(t) => t@,
    }
}

impl Notice {
    /// How the notice is marked.
    pub fn tone(&self) -> (r: Tone)
        ensures
            r == notice_tone(*self),
    {
        match self {
            Notice::NowPublishing { .. } => Tone::Title,
            Notice::Private => Tone::Error,
            Notice::InvalidLuau { .. } => Tone::Error,
            Notice::Aborted => Tone::Error,
            Notice::PleaseConfirm => Tone::Heading,
            Notice::Summary(_) => Tone::Plain,
            Notice::DryRunWritten => Tone::Success,
            Notice::Published(_) => Tone::Success,
            _ => Tone::Warning,
        }
    }

    /// What the notice says.
    pub fn message(&self) -> (r: String)
        ensures
            r@ == notice_text(*self),
    {
        match self {
            Notice::NowPublishing { name, target } => text::cat5(
                "[now publishing ",
                name.as_str(),
                " ",
                target.as_str(),
                "]",
            ),
            Notice::Private => "package is private, refusing to publish".to_owned(),
            Notice::ManifestAdded => text::cat(MANIFEST_FILE_NAME, " was not included, adding it"),
            Notice::NoReadme => "no README file included, consider adding one".to_owned(),
            Notice::NoDocs => "docs directory not included, consider adding one".to_owned(),
            Notice::ExportAdded { export, path } => text::cat3(
                export.name(),
                " was not included, adding ",
                path.as_str(),
            ),
            Notice::BuildFileAdded { export, file } => text::cat3(
                export.name(),
                " was not in build files, adding ",
                file.as_str(),
            ),
            Notice::ManifestInBuildFiles => text::cat(
                MANIFEST_FILE_NAME,
                " is in build files, please remove it",
            ),
            Notice::ScriptAdded { name, path } => text::cat4(
                "script ",
                name.as_str(),
                " was not included, adding ",
                path.as_str(),
            ),
            Notice::InvalidLuau { file, errors } => text::cat3(
                file.as_str(),
                " is not a valid Luau file:\n",
                text::join(&text::bullets(errors), "\n").as_str(),
            ),
            Notice::PleaseConfirm => "please confirm the following information:".to_owned(),
            Notice::Summary(lines) => text::join(lines, "\n"),
            Notice::Aborted => "publish aborted".to_owned(),
            Notice::DryRunWritten => "(dry run) package written to package.tar.gz".to_owned(),
            Notice::Published(t) => t.clone(),
        }
    }
}

} // verus!
