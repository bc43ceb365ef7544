//! The commands.

pub mod auth;
pub mod execute;
pub mod execution;
pub mod launching;
pub mod publish;
pub mod root_search;
pub mod run;
pub mod self_upgrade;

use execute::ExecuteCommand;
use publish::steps::PublishCommand;
use run::RunCommand;
use self_upgrade::SelfUpgradeCommand;
use vstd::prelude::*;

verus! {

/// What the program can be told to do. Where a command is not decided here, the
/// variant holds nothing of it.
#[derive(Debug)]
pub enum Subcommand {
    /// Authentication-related commands.
    Auth,
    /// Configuration-related commands.
    Config,
    /// CAS-related commands.
    Cas,
    /// Initializes a manifest file in the current directory.
    Init,
    /// Adds a dependency to the project.
    Add,
    /// Removes a dependency from the project.
    Remove,
    /// Installs all dependencies for the project.
    Install,
    /// Updates the project's lockfile.
    Update,
    /// Checks for outdated dependencies.
    Outdated,
    /// Lists all dependencies in the project.
    List,
    /// Runs a script, an executable package, or a file with Lune.
    Run(RunCommand),
    /// Publishes the project to the registry.
    Publish(PublishCommand),
    /// Yanks a package from the registry.
    Yank,
    /// Deprecates a package from the registry.
    Deprecate,
    /// Sets up a patching environment for a package.
    Patch,
    /// Finalizes a patching environment for a package.
    PatchCommit,
    /// Executes a binary package without needing to be run in a project directory.
    Execute(ExecuteCommand),
    /// Installs the pesde binary and scripts.
    SelfInstall,
    /// Installs the latest version of pesde.
    SelfUpgrade(SelfUpgradeCommand),
}

/// What a command is handed.
#[derive(Debug, PartialEq, Eq, Clone, Copy, Structural)]
pub enum Resources {
    Nothing,
    /// The project that it is run in.
    Project,
    /// The project, and a client for requests.
    ProjectAndClient,
}

/// What a command is handed.
pub open spec fn resources(s: Subcommand) -> Resources {
    match s {
        Subcommand::Config => Resources::Nothing,
        Subcommand::SelfInstall => Resources::Nothing,
        Subcommand::Cas => Resources::Project,
        Subcommand::Init => Resources::Project,
        Subcommand::Add => Resources::Project,
        Subcommand::Remove => Resources::Project,
        Subcommand::Outdated => Resources::Project,
        Subcommand::List => Resources::Project,
        Subcommand::PatchCommit => Resources::Project,
        _ => Resources::ProjectAndClient,
    }
}

impl Subcommand {
    /// Tells what the command is run with.
    pub fn run(&self) -> (r: Resources)
        ensures
            r == resources(*self),
    {
        match self {
            Subcommand::Auth => Resources::ProjectAndClient,
            Subcommand::Config => Resources::Nothing,
            Subcommand::Cas => Resources::Project,
            Subcommand::Init => Resources::Project,
            Subcommand::Add => Resources::Project,
            Subcommand::Remove => Resources::Project,
            Subcommand::Install => Resources::ProjectAndClient,
            Subcommand::Update => Resources::ProjectAndClient,
            Subcommand::Outdated => Resources::Project,
            Subcommand::List => Resources::Project,
            Subcommand::Run(_) => Resources::ProjectAndClient,
            Subcommand::Publish(_) => Resources::ProjectAndClient,
            Subcommand::Yank => Resources::ProjectAndClient,
            Subcommand::Deprecate => Resources::ProjectAndClient,
            Subcommand::Patch => Resources::ProjectAndClient,
            Subcommand::PatchCommit => Resources::Project,
            Subcommand::Execute(_) => Resources::ProjectAndClient,
            Subcommand::SelfInstall => Resources::Nothing,
            Subcommand::SelfUpgrade(_) => Resources::ProjectAndClient,
        }
    }
}

/// The configuration and the installation of the program need nothing; commands that only
/// work on the files of a project need the project; and all that may ask a site for
/// something also need a client.
pub proof fn commands_get_what_they_need(s: Subcommand)
    ensures
        resources(s) == Resources::Nothing <==> s is Config || s is SelfInstall,
        resources(s) == Resources::Project <==> s is Cas || s is Init || s is Add || s is Remove
            || s is Outdated || s is List || s is PatchCommit,
        resources(s) == Resources::ProjectAndClient <==> s is Auth || s is Install || s is Update
            || s is Run || s is Publish || s is Yank || s is Deprecate || s is Patch || s is Execute
            || s is SelfUpgrade,
{
}

} // verus!
