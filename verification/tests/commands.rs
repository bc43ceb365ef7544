//! Running, executing, logging in and upgrading.

use pesde::cli::commands::auth::device_flow::{
    AccessTokenError, AccessTokenResponse, DeviceCodeResponse, FlowAction, FlowEvent, FlowNotice,
    FlowState, FlowStep, RequestFailure, Wait,
};
use pesde::cli::commands::auth::login::{
    LoginAction, LoginCommand, LoginEvent, LoginNotice, LoginState,
};
use pesde::cli::commands::execute::{
    ExecuteAction, ExecuteCommand, ExecuteEvent, ExecuteState, ExecuteStep, IndexEntry, RunFailure,
};
use pesde::cli::commands::run::{
    Members, Place, Reading, RootRead, RunAction, RunCommand, RunEvent, RunState, RunStep, Wanted,
};
use pesde::cli::commands::self_upgrade::{
    upgrade_question, SelfUpgradeCommand, UpgradeAction, UpgradeEvent, UpgradeState, UpgradeStep,
};
use pesde::cli::commands::{Resources, Subcommand};
use pesde::cli::identifiers::VersionedPackageName;
use pesde::engine::{EngineReqs, Engines, Runtime, RuntimeKind};
use pesde::failure::Failure;
use pesde::git_url::{parse_gix_url, GitUrl};
use pesde::project::{
    AuthConfig, Dependency, DependencySpecifiers, DependencyType, GraphNode, Lockfile, Manifest,
    PackageId, Project, Script, Target, TargetKind, Token,
};
use pesde::version::{read_version, Version, VersionReq};

fn url(s: &str) -> GitUrl {
    parse_gix_url(s).unwrap()
}

fn version(s: &str) -> Version {
    read_version(s).unwrap()
}

fn engines() -> Engines {
    Engines { pesde: None, lune: Some(version("0.9.0")) }
}

fn project() -> Project {
    Project {
        package_dir: "/pkg".to_string(),
        workspace_dir: None,
        data_dir: "/data".to_string(),
        cas_dir: "/cas".to_string(),
        auth_config: AuthConfig {
            tokens: vec![Token { url: url("https://github.com"), token: "t".to_string() }],
        },
    }
}

fn manifest(bin_path: Option<&str>) -> Manifest {
    Manifest {
        name: "acme/tool".to_string(),
        version: version("1.0.0"),
        description: None,
        license: None,
        authors: Vec::new(),
        repository: None,
        target: Target {
            kind: TargetKind::Lune,
            lib_path: None,
            bin_path: bin_path.map(|s| s.to_string()),
            build_files: None,
            scripts: None,
            shown: "lune".to_string(),
        },
        private: false,
        scripts: vec![Script { name: "fmt".to_string(), path: "s/fmt.luau".to_string() }],
        indices: Vec::new(),
        wally_indices: Vec::new(),
        overrides: Vec::new(),
        engines: EngineReqs { pesde: None, lune: None },
        dependencies: Vec::new(),
    }
}

// Run.

fn run(name: &str) -> RunCommand {
    RunCommand { package_or_script: Some(name.to_string()) }
}

fn run_error(out: RunStep) -> String {
    match out.action {
        RunAction::Fail(e) => e.message,
        _ => panic!("no error"),
    }
}

fn launched(out: RunStep) -> (String, Place, Place) {
    match out.action {
        RunAction::Launch { runtime, root, file } => {
            assert_eq!(runtime.kind, RuntimeKind::Lune);
            (runtime.version.to_text(), root, file)
        }
        _ => panic!("nothing is launched"),
    }
}

#[test]
fn bin_of_the_package_is_run() {
    let cmd = RunCommand { package_or_script: None };
    let out = cmd.run();
    assert!(matches!(out.action, RunAction::ReadManifest));
    let out = cmd.step(&project(), out.state, RunEvent::Manifest(Ok(manifest(Some("b.luau")))));
    assert!(matches!(out.action, RunAction::FindEngines));
    let (v, root, file) =
        launched(cmd.step(&project(), out.state, RunEvent::Engines(Ok(engines()))));
    assert_eq!(v, "0.9.0");
    assert!(matches!(root, Place::PackageDir));
    assert!(matches!(file, Place::InPackage(p) if p == "b.luau"));
}

#[test]
fn something_has_to_be_run() {
    let cmd = RunCommand { package_or_script: None };
    let step = |s, e| cmd.step(&project(), s, e);
    let out = step(RunState::AwaitEngines(manifest(None)), RunEvent::Engines(Ok(engines())));
    assert_eq!(
        run_error(out),
        "no package or script specified, and no bin path found in manifest"
    );
    let s = RunState::AwaitEngines(manifest(Some("b")));
    let none = Engines { pesde: None, lune: None };
    assert_eq!(run_error(step(s, RunEvent::Engines(Ok(none)))), "lune not available!");
    let s = RunState::AwaitEngines(manifest(Some("b")));
    assert_eq!(run_error(step(s, RunEvent::Engines(Err(Failure::of("x"))))), "x");
    let out = step(RunState::AwaitManifest, RunEvent::Manifest(Err(Failure::of("x"))));
    assert_eq!(run_error(out), "failed to deserialize manifest");
}

fn node(name: &str, alias: Option<&str>) -> GraphNode {
    GraphNode {
        id: PackageId { name: name.to_string(), version_id: "1".to_string() },
        direct: alias.map(|a| Dependency {
            alias: a.to_string(),
            specifier: DependencySpecifiers::Git("x".to_string()),
            ty: DependencyType::Standard,
        }),
    }
}

fn locked(wanted: Wanted, graph: Option<Vec<GraphNode>>) -> RunStep {
    let lockfile = graph.map(|graph| Lockfile {
        name: "acme/tool".to_string(),
        version: version("1.0.0"),
        target: TargetKind::Lune,
        overrides: Vec::new(),
        graph,
    });
    run("x").step(
        &project(),
        RunState::AwaitLockfile(engines(), wanted),
        RunEvent::Lockfile(Ok(lockfile)),
    )
}

#[test]
fn names_are_looked_up() {
    let out = run("acme/x").step(
        &project(),
        RunState::AwaitEngines(manifest(None)),
        RunEvent::Engines(Ok(engines())),
    );
    assert!(matches!(&out.action, RunAction::ReadName(n) if n == "acme/x"));
    let e = RunEvent::Reading(Reading::Package("acme/x".to_string()));
    let out = run("acme/x").step(&project(), out.state, e);
    assert!(matches!(out.action, RunAction::ReadLockfile));
    let e = RunEvent::Lockfile(Err(Failure::of("x")));
    assert_eq!(run_error(run("acme/x").step(&project(), out.state, e)), "x");
    let s = RunState::AwaitReading(engines());
    let out = run("a b").step(&project(), s, RunEvent::Reading(Reading::Neither));
    assert!(matches!(out.action, RunAction::ReadManifest));
}

#[test]
fn packages_are_run_by_name() {
    let wanted = || Wanted::Package("acme/x".to_string());
    let out = locked(wanted(), Some(vec![node("acme/x", None), node("acme/x", Some("x"))]));
    assert!(matches!(out.state, RunState::AwaitOwnTarget(_, 1)));
    let out = locked(wanted(), Some(vec![node("acme/x", None)]));
    assert_eq!(run_error(out), "package not found");
    let twice = vec![node("acme/x", Some("a")), node("acme/x", Some("b"))];
    assert_eq!(
        run_error(locked(wanted(), Some(twice))),
        "multiple versions found. use the package's alias instead."
    );
    assert_eq!(
        run_error(locked(wanted(), None)),
        "outdated lockfile, please run the install command first"
    );
}

#[test]
fn packages_are_run_by_alias() {
    let wanted = || Wanted::Alias("b".to_string());
    let graph = vec![node("x", Some("a")), node("y", Some("b")), node("z", Some("b"))];
    let out = locked(wanted(), Some(graph));
    assert!(matches!(out.state, RunState::AwaitOwnTarget(_, 1)) && !out.warned);
    let out = locked(wanted(), Some(vec![node("x", Some("a"))]));
    assert!(matches!(out.state, RunState::AwaitScripts(_)) && !out.warned);
    let out = locked(wanted(), None);
    assert!(matches!(out.state, RunState::AwaitScripts(_)) && out.warned);
}

#[test]
fn packages_are_run_where_they_are_installed() {
    let cmd = run("acme/x");
    let step = |s, e| cmd.step(&project(), s, e);
    let out = step(RunState::AwaitOwnTarget(engines(), 3), RunEvent::Manifest(Ok(manifest(None))));
    assert!(matches!(out.action, RunAction::Refresh(3)));
    let out = step(out.state, RunEvent::Refreshed(Ok(())));
    assert!(matches!(out.action, RunAction::GetTarget(3, TargetKind::Lune)));
    let e = RunEvent::Target(Ok((TargetKind::Luau, Some("bin.luau".to_string()))));
    let (_, root, file) = launched(step(out.state, e));
    assert!(matches!(root, Place::InContainer(3, p) if p == "bin.luau"));
    assert!(matches!(file, Place::InContainer(3, p) if p == "bin.luau"));
}

#[test]
fn packages_can_fail_to_run() {
    let cmd = run("acme/x");
    let step = |s, e| run_error(cmd.step(&project(), s, e));
    let s = RunState::AwaitOwnTarget(engines(), 0);
    assert_eq!(
        step(s, RunEvent::Manifest(Err(Failure::of("x")))),
        "failed to deserialize manifest"
    );
    let s = RunState::AwaitRefresh(engines(), 0, TargetKind::Lune);
    assert_eq!(step(s, RunEvent::Refreshed(Err(Failure::of("x")))), "failed to refresh source");
    let s = || RunState::AwaitTarget(engines(), 0);
    assert_eq!(step(s(), RunEvent::Target(Err(Failure::of("x")))), "x");
    let e = RunEvent::Target(Ok((TargetKind::Lune, None)));
    assert_eq!(step(s(), e), "package has no bin path");
    let e = RunEvent::Target(Ok((TargetKind::Roblox, Some("x".to_string()))));
    assert_eq!(step(s(), e), "roblox targets cannot be ran!");
}

#[test]
fn scripts_are_run() {
    let cmd = run("fmt");
    let step = |s, e| cmd.step(&project(), s, e);
    let s = RunState::AwaitScripts(engines());
    let out = step(s, RunEvent::Manifest(Ok(manifest(None))));
    assert!(matches!(&out.action, RunAction::ParseScript(p) if p == "s/fmt.luau"));
    let by = Runtime { kind: RuntimeKind::Lune, version: version("0.1.0") };
    let e = RunEvent::Script(Ok((by, "s/fmt.luau".to_string())));
    let (v, root, file) = launched(step(out.state, e));
    assert_eq!(v, "0.1.0");
    assert!(matches!(root, Place::PackageDir));
    assert!(matches!(file, Place::InPackage(p) if p == "s/fmt.luau"));
    let out = step(RunState::AwaitScript, RunEvent::Script(Err(Failure::of("x"))));
    assert_eq!(run_error(out), "failed to get script info");
}

#[test]
fn files_are_run_in_their_member() {
    let cmd = run("sub/a.luau");
    let step = |s, e| cmd.step(&project(), s, e);
    let s = RunState::AwaitScripts(engines());
    let out = step(s, RunEvent::Manifest(Err(Failure::of("unreadable"))));
    assert!(matches!(&out.action, RunAction::StatPath(p) if p == "sub/a.luau"));
    let out = step(out.state, RunEvent::Path { exists: true, shown: String::new() });
    assert!(matches!(out.action, RunAction::ListMembers));
    let out = step(out.state, RunEvent::Members(Members::Found));
    assert!(matches!(&out.action, RunAction::CollectMembers { members: true, workspace }
        if workspace == "/pkg"));
    let members = vec!["/pkg/sub".to_string(), "/pkg".to_string()];
    let out = step(out.state, RunEvent::Collected(Ok(members)));
    assert!(matches!(out.action, RunAction::Canonicalize(None)));
    let e = RunEvent::Canonical(Ok("/pkg/sub/a.luau".to_string()), Some("/pkg/sub".to_string()));
    let out = step(out.state, e);
    assert!(matches!(&out.action, RunAction::Canonicalize(Some(p)) if p == "/pkg/sub"));
    let e = RunEvent::Canonical(Ok("/pkg/sub".to_string()), Some("/pkg".to_string()));
    let out = step(out.state, e);
    assert!(matches!(&out.action, RunAction::StatManifest(p) if p == "/pkg/sub"));
    let out = step(out.state, RunEvent::HasManifest(false));
    let e = RunEvent::Canonical(Ok("/pkg".to_string()), None);
    let out = step(out.state, e);
    let out = step(out.state, RunEvent::HasManifest(true));
    assert!(matches!(&out.action, RunAction::ReadRoot(Place::At(p)) if p == "/pkg"));
    let out = step(out.state, RunEvent::Root(RootRead::Target(TargetKind::Luau)));
    let (_, root, file) = launched(out);
    assert!(matches!(root, Place::At(p) if p == "/pkg"));
    assert!(matches!(file, Place::InPackage(p) if p == "sub/a.luau"));
}

#[test]
fn files_outside_of_members_are_run_in_the_package() {
    let cmd = run("a.luau");
    let s = RunState::AwaitCanonical(engines(), Vec::new(), Some("/".to_string()));
    let out = cmd.step(&project(), s, RunEvent::Canonical(Ok("/".to_string()), None));
    assert!(matches!(out.action, RunAction::ReadRoot(Place::PackageDir)));
}

#[test]
fn files_can_fail_to_run() {
    let cmd = run("a.luau");
    let step = |s, e| run_error(cmd.step(&project(), s, e));
    let e = RunEvent::Path { exists: false, shown: "/pkg/a.luau".to_string() };
    assert_eq!(step(RunState::AwaitPath(engines()), e), "path `/pkg/a.luau` does not exist");
    let e = RunEvent::Members(Members::Failed(Failure::of("x")));
    assert_eq!(step(RunState::AwaitMembers(engines()), e), "failed to get workspace members");
    let e = RunEvent::Collected(Err(Failure::of("x")));
    let s = RunState::AwaitCollected(engines());
    assert_eq!(step(s, e), "failed to collect workspace members");
    let e = RunEvent::Canonical(Err(Failure::of("x")), None);
    let s = RunState::AwaitCanonical(engines(), Vec::new(), None);
    assert_eq!(step(s, e), "failed to canonicalize parent");
    let s = || RunState::AwaitRoot(engines(), Place::PackageDir);
    let e = RunEvent::Root(RootRead::ReadFailed(Failure::of("x")));
    assert_eq!(step(s(), e), "failed to read manifest at root");
    let e = RunEvent::Root(RootRead::ParseFailed(Failure::of("x")));
    assert_eq!(step(s(), e), "failed to deserialize manifest at root");
    let e = RunEvent::Root(RootRead::Target(TargetKind::RobloxServer));
    assert_eq!(step(s(), e), "roblox targets cannot be ran!");
}

#[test]
fn workspaces_without_a_manifest_have_no_members() {
    let mut member = project();
    member.workspace_dir = Some("/ws".to_string());
    let s = RunState::AwaitMembers(engines());
    let out = run("x").step(&member, s, RunEvent::Members(Members::NoManifest));
    assert!(matches!(&out.action, RunAction::CollectMembers { members: false, workspace }
        if workspace == "/ws"));
}

// Execute.

fn execute(req: Option<&str>, index: bool) -> ExecuteCommand {
    ExecuteCommand {
        package: VersionedPackageName(
            "acme/tool".to_string(),
            req.map(|r| VersionReq { text: r.to_string() }),
        ),
        target: TargetKind::Luau,
        index: if index { Some(url("https://example.com/index")) } else { None },
    }
}

fn execute_error(out: ExecuteStep) -> Failure {
    match out.action {
        ExecuteAction::Fail(e) => e,
        _ => panic!("no error"),
    }
}

#[test]
fn execution_finds_its_index() {
    let out = execute(None, true).run(false, "roblox");
    assert_eq!(execute_error(out).message, "roblox doesn't support bin exports!");
    let out = execute(None, true).run(true, "luau");
    assert!(matches!(&out.action, ExecuteAction::Refresh(u)
        if u.text == "https://example.com/index"));
    let cmd = execute(None, false);
    let out = cmd.run(true, "luau");
    assert!(matches!(out.action, ExecuteAction::ReadConfig));
    let e = ExecuteEvent::Config(Some(url("https://example.com/conf")));
    let out = cmd.step(&project(), out.state, e);
    assert!(matches!(&out.action, ExecuteAction::Refresh(u)
        if u.text == "https://example.com/conf"));
    let out = cmd.step(&project(), ExecuteState::AwaitConfig, ExecuteEvent::Config(None));
    assert_eq!(execute_error(out).message, "no index specified");
}

#[test]
fn a_package_is_executed_from_start_to_end() {
    let cmd = execute(None, true);
    let step = |s, e| cmd.step(&project(), s, e);
    let out = step(ExecuteState::AwaitRefresh, ExecuteEvent::Refreshed(Ok(())));
    match &out.action {
        ExecuteAction::Resolve(q) => {
            assert_eq!((q.name.as_str(), q.version.text.as_str()), ("acme/tool", "*"));
            assert_eq!(q.index, "default");
            assert!(q.target == TargetKind::Luau && q.loose_target);
        }
        _ => panic!("nothing is resolved"),
    }
    let versions = vec!["1.0.0 luau".to_string(), "2.0.0 luau".to_string()];
    let out = step(out.state, ExecuteEvent::Resolved(Ok(versions)));
    assert!(matches!(out.action, ExecuteAction::MakeTempDir));
    let out = step(out.state, ExecuteEvent::TempDir(Ok("/tmp/x".to_string())));
    assert!(matches!(&out.action, ExecuteAction::ReadIndexFile(n) if n == "acme/tool"));
    match &out.state {
        ExecuteState::AwaitIndexFile(v, own) => {
            assert_eq!(v, "2.0.0 luau");
            assert_eq!(own.package_dir, "/tmp/x");
            assert!(own.workspace_dir.is_none());
            assert_eq!((own.data_dir.as_str(), own.cas_dir.as_str()), ("/data", "/cas"));
            assert_eq!(own.auth_config.tokens[0].token, "t");
        }
        _ => panic!("no project"),
    }
    let entries = vec![IndexEntry {
        version_id: "2.0.0 luau".to_string(),
        kind: TargetKind::Luau,
        bin_path: Some("bin.luau".to_string()),
    }];
    let out = step(out.state, ExecuteEvent::IndexFile(Ok(Some(entries))));
    assert!(matches!(out.action, ExecuteAction::Download));
    let out = step(out.state, ExecuteEvent::Downloaded(Ok(())));
    assert!(matches!(out.action, ExecuteAction::WritePackage));
    let out = step(out.state, ExecuteEvent::Written(Ok(())));
    assert!(matches!(out.action, ExecuteAction::BuildGraph));
    let out = step(out.state, ExecuteEvent::Graph(Ok(())));
    assert_eq!(out.used.as_deref(), Some("using acme/tool@2.0.0 luau"));
    assert!(matches!(out.action, ExecuteAction::DownloadAndLink));
    let out = step(out.state, ExecuteEvent::Linked(Ok(())));
    assert!(matches!(out.action, ExecuteAction::ReadManifest));
    let out = step(out.state, ExecuteEvent::Manifest(Ok(())));
    assert!(matches!(out.action, ExecuteAction::FindEngines));
    let out = step(out.state, ExecuteEvent::Engines(Ok(engines())));
    assert!(matches!(&out.action, ExecuteAction::Run { runtime, bin_path }
        if runtime.version.to_text() == "0.9.0" && bin_path == "bin.luau"));
    let out = step(out.state, ExecuteEvent::Ran(Ok(Some(3))));
    assert!(matches!(out.action, ExecuteAction::Exit(3)));
    let out = step(ExecuteState::AwaitRun, ExecuteEvent::Ran(Ok(None)));
    assert!(matches!(out.action, ExecuteAction::Exit(1)));
}

#[test]
fn execution_needs_a_version_with_a_binary() {
    let cmd = execute(Some("^1"), true);
    let step = |s, e| execute_error(cmd.step(&project(), s, e)).message;
    assert_eq!(
        step(ExecuteState::AwaitResolved, ExecuteEvent::Resolved(Ok(Vec::new()))),
        "no compatible package could be found for acme/tool@^1"
    );
    let s = || ExecuteState::AwaitIndexFile("1".to_string(), project());
    let e = ExecuteEvent::IndexFile(Ok(None));
    assert_eq!(step(s(), e), "package doesn't exist on the index");
    let entry = |v: &str| IndexEntry {
        version_id: v.to_string(),
        kind: TargetKind::Luau,
        bin_path: None,
    };
    let e = ExecuteEvent::IndexFile(Ok(Some(vec![entry("2")])));
    assert_eq!(step(s(), e), "version id not present in index file");
    let e = ExecuteEvent::IndexFile(Ok(Some(vec![entry("2"), entry("1")])));
    assert_eq!(step(s(), e), "package has no binary export");
}

#[test]
fn execution_can_fail() {
    let cmd = execute(None, true);
    let entries = || {
        vec![IndexEntry {
            version_id: "1".to_string(),
            kind: TargetKind::Roblox,
            bin_path: Some("b".to_string()),
        }]
    };
    let x = || Failure::of("x");
    let fail = |s, e| {
        let f = execute_error(cmd.step(&project(), s, e));
        assert_eq!(f.causes, vec!["x".to_string()]);
        f.message
    };
    assert_eq!(
        fail(ExecuteState::AwaitRefresh, ExecuteEvent::Refreshed(Err(x()))),
        "failed to refresh source"
    );
    assert_eq!(
        fail(ExecuteState::AwaitResolved, ExecuteEvent::Resolved(Err(x()))),
        "failed to resolve package"
    );
    assert_eq!(
        fail(ExecuteState::AwaitTempDir("1".to_string()), ExecuteEvent::TempDir(Err(x()))),
        "failed to create temporary directory"
    );
    let s = || ExecuteState::AwaitIndexFile("1".to_string(), project());
    assert_eq!(
        fail(s(), ExecuteEvent::IndexFile(Err(x()))),
        "failed to read package index file"
    );
    let next = |s, e| cmd.step(&project(), s, e).state;
    let downloading = || next(s(), ExecuteEvent::IndexFile(Ok(Some(entries()))));
    let writing = || next(downloading(), ExecuteEvent::Downloaded(Ok(())));
    let graphing = || next(writing(), ExecuteEvent::Written(Ok(())));
    let linking = || next(graphing(), ExecuteEvent::Graph(Ok(())));
    let reading = || next(linking(), ExecuteEvent::Linked(Ok(())));
    let finding = || next(reading(), ExecuteEvent::Manifest(Ok(())));
    assert_eq!(
        fail(downloading(), ExecuteEvent::Downloaded(Err(x()))),
        "failed to download package"
    );
    assert_eq!(
        fail(writing(), ExecuteEvent::Written(Err(x()))),
        "failed to write package contents"
    );
    assert_eq!(
        fail(graphing(), ExecuteEvent::Graph(Err(x()))),
        "failed to build dependency graph"
    );
    assert_eq!(
        fail(linking(), ExecuteEvent::Linked(Err(x()))),
        "failed to download and link dependencies"
    );
    assert_eq!(
        fail(reading(), ExecuteEvent::Manifest(Err(x()))),
        "failed to deserialize manifest"
    );
    let out = cmd.step(&project(), finding(), ExecuteEvent::Engines(Err(x())));
    assert_eq!(execute_error(out).message, "x");
    let out = cmd.step(&project(), finding(), ExecuteEvent::Engines(Ok(engines())));
    assert_eq!(execute_error(out).message, "roblox targets cannot be ran!");
    let ran = |e| fail(ExecuteState::AwaitRun, ExecuteEvent::Ran(Err(e)));
    assert_eq!(ran(RunFailure::CreateFile(x())), "failed to create tempfile");
    assert_eq!(ran(RunFailure::WriteFile(x())), "failed to write to tempfile");
    assert_eq!(ran(RunFailure::CurrentDir(x())), "failed to get current directory");
    assert_eq!(ran(RunFailure::Run(x())), "failed to run script");
}

// Login.

fn login(token: Option<&str>) -> LoginCommand {
    LoginCommand { token: token.map(|t| t.to_string()) }
}

fn index() -> GitUrl {
    url("https://example.com/index")
}

#[test]
fn given_tokens_are_saved() {
    let cmd = login(Some("abc"));
    let out = cmd.run(&index());
    assert_eq!(out.said.unwrap().message(), "set token for https://example.com/index");
    assert!(matches!(&out.action, LoginAction::SetToken { url, token }
        if url.text == "https://example.com/index" && token == "abc"));
    let out = cmd.step(&index(), out.state, LoginEvent::Saved(Ok(())));
    assert!(matches!(out.action, LoginAction::Done(Ok(()))));
}

#[test]
fn tokens_of_a_login_are_saved_twice() {
    let cmd = login(None);
    let out = cmd.run(&index());
    assert!(matches!(out.action, LoginAction::Authenticate));
    let e = LoginEvent::Authenticated(Ok("abc".to_string()));
    let out = cmd.step(&index(), out.state, e);
    assert!(matches!(&out.action, LoginAction::GetTokenLogin(t) if t == "Bearer abc"));
    let out = cmd.step(&index(), out.state, LoginEvent::Named(Ok("someone".to_string())));
    assert_eq!(
        out.said.unwrap().message(),
        "logged in as someone for https://example.com/index"
    );
    assert!(matches!(&out.action, LoginAction::SetToken { url, token }
        if url.text == "https://example.com/index" && token == "Bearer abc"));
    let out = cmd.step(&index(), out.state, LoginEvent::Saved(Ok(())));
    let github = url("https://github.com");
    assert!(matches!(&out.action, LoginAction::SetToken { url, token }
        if url.text == github.text && token == "Bearer abc"));
    let out = cmd.step(&index(), out.state, LoginEvent::Saved(Ok(())));
    assert!(matches!(out.action, LoginAction::Done(Ok(()))));
}

#[test]
fn logins_can_fail() {
    let x = || Failure::of("x");
    let fail = |s, e| match login(None).step(&index(), s, e).action {
        LoginAction::Done(Err(f)) => assert_eq!(f.message, "x"),
        _ => panic!("no error"),
    };
    fail(LoginState::AwaitAuthentication, LoginEvent::Authenticated(Err(x())));
    fail(LoginState::AwaitName("t".to_string()), LoginEvent::Named(Err(x())));
    fail(LoginState::AwaitSaved("t".to_string()), LoginEvent::Saved(Err(x())));
    fail(LoginState::AwaitGithub, LoginEvent::Saved(Err(x())));
    let n = LoginNotice::TokenSet { index: "i".to_string() };
    assert_eq!(n.message(), "set token for i");
}

fn flow(s: FlowState, e: FlowEvent) -> FlowStep {
    login(None).step_flow(s, e)
}

fn flow_error(out: FlowStep) -> Failure {
    match out.action {
        FlowAction::Done(Err(e)) => e,
        _ => panic!("no error"),
    }
}

fn code(expires_in: u64, interval: u64) -> FlowEvent {
    FlowEvent::DeviceCode(Ok(DeviceCodeResponse {
        device_code: "d c/1".to_string(),
        user_code: "ABCD".to_string(),
        verification_uri: "https://github.com/login/device".to_string(),
        expires_in,
        interval,
    }))
}

fn pending() -> FlowEvent {
    FlowEvent::Token(Ok(AccessTokenResponse::Error(AccessTokenError::AuthorizationPending)))
}

#[test]
fn device_codes_are_asked_for() {
    let out = login(None).authenticate_device_flow(&index());
    assert_eq!(
        out.said.unwrap().message(),
        "logging in into https://example.com/index"
    );
    assert!(matches!(out.action, FlowAction::Refresh));
    let out = flow(out.state, FlowEvent::Refreshed(Ok(())));
    assert!(matches!(out.action, FlowAction::ReadConfig));
    let out = flow(out.state, FlowEvent::Config(Ok(Some("id&é".to_string()))));
    assert!(matches!(&out.action, FlowAction::RequestDeviceCode(u)
        if u == "https://github.com/login/device/code?client_id=id%26%C3%A9"));
    let out = flow(out.state, code(10, 5));
    assert_eq!(
        out.said.unwrap().message(),
        "copy your one-time code: ABCD\npress enter to open https://github.com/login/device in \
         your browser..."
    );
    assert!(matches!(out.action, FlowAction::Sleep(5)));
}

#[test]
fn tokens_are_asked_for_until_they_come() {
    let out = flow(FlowState::AwaitDeviceCode("id".to_string()), code(12, 5));
    let out = flow(out.state, FlowEvent::Slept);
    assert!(matches!(&out.action, FlowAction::RequestToken(u)
        if u == "https://github.com/login/oauth/access_token?client_id=id&device_code=d+c%2F1&\
                 grant_type=urn%3Aietf%3Aparams%3Aoauth%3Agrant-type%3Adevice_code"));
    let out = flow(out.state, pending());
    assert!(matches!(out.action, FlowAction::Sleep(5)));
    let out = flow(out.state, FlowEvent::Slept);
    let slow = AccessTokenResponse::Error(AccessTokenError::SlowDown { interval: 1 });
    let out = flow(out.state, FlowEvent::Token(Ok(slow)));
    assert!(matches!(out.action, FlowAction::Sleep(1)));
    let out = flow(out.state, FlowEvent::Slept);
    let done = AccessTokenResponse::Success { access_token: "tok".to_string() };
    let out = flow(out.state, FlowEvent::Token(Ok(done)));
    assert!(matches!(out.action, FlowAction::Done(Ok(t)) if t == "tok"));
}

#[test]
fn codes_expire() {
    let expired = "code expired, please re-run the login command";
    let out = flow(FlowState::AwaitDeviceCode("id".to_string()), code(0, 5));
    assert!(matches!(&out.said, Some(FlowNotice::Code { .. })));
    assert_eq!(flow_error(out).message, expired);
    let out = flow(FlowState::AwaitDeviceCode("id".to_string()), code(7, 5));
    let out = flow(out.state, FlowEvent::Slept);
    let out = flow(out.state, pending());
    let out = flow(out.state, FlowEvent::Slept);
    assert!(matches!(&out.state, FlowState::AwaitToken(w) if w.time_left == 0));
    assert_eq!(flow_error(flow(out.state, pending())).message, expired);
    let wait = || Wait {
        client_id: "id".to_string(),
        device_code: "d".to_string(),
        time_left: 9,
        interval: 1,
    };
    let e = AccessTokenResponse::Error(AccessTokenError::ExpiredToken);
    let out = flow(FlowState::AwaitToken(wait()), FlowEvent::Token(Ok(e)));
    assert_eq!(flow_error(out).message, expired);
    let e = AccessTokenResponse::Error(AccessTokenError::AccessDenied);
    let out = flow(FlowState::AwaitToken(wait()), FlowEvent::Token(Ok(e)));
    assert_eq!(flow_error(out).message, "access denied, re-run the login command");
}

#[test]
fn device_flow_can_fail() {
    let x = || Failure::of("x");
    let f = flow_error(flow(FlowState::AwaitRefresh, FlowEvent::Refreshed(Err(x()))));
    assert_eq!(f.message, "failed to refresh index");
    let f = flow_error(flow(FlowState::AwaitConfig, FlowEvent::Config(Err(x()))));
    assert_eq!(f.message, "failed to read index config");
    let f = flow_error(flow(FlowState::AwaitConfig, FlowEvent::Config(Ok(None))));
    assert_eq!(f.message, "index not configured for Github oauth.");
    let asked = |e| {
        let s = FlowState::AwaitDeviceCode("id".to_string());
        flow_error(flow(s, FlowEvent::DeviceCode(Err(e)))).message
    };
    assert_eq!(asked(RequestFailure::Send(x())), "failed to send device code request");
    assert_eq!(asked(RequestFailure::Status(x())), "failed to get device code response");
    assert_eq!(asked(RequestFailure::Parse(x())), "failed to parse device code response");
    let polled = |e| {
        let w = Wait {
            client_id: "id".to_string(),
            device_code: "d".to_string(),
            time_left: 9,
            interval: 1,
        };
        flow_error(flow(FlowState::AwaitToken(w), FlowEvent::Token(Err(e)))).message
    };
    assert_eq!(polled(RequestFailure::Send(x())), "failed to send access token request");
    assert_eq!(polled(RequestFailure::Status(x())), "failed to get access token response");
    assert_eq!(polled(RequestFailure::Parse(x())), "failed to parse access token response");
}

// Upgrade.

fn upgrade(use_cached: bool) -> SelfUpgradeCommand {
    SelfUpgradeCommand { use_cached, include_pre: true }
}

fn latest(v: &str) -> UpgradeStep {
    let e = UpgradeEvent::Latest(Ok(version(v)));
    upgrade(false).step(&version("0.7.0"), UpgradeState::AwaitLatest, e)
}

fn said(out: &UpgradeStep) -> String {
    out.said.as_ref().unwrap().message()
}

#[test]
fn latest_version_is_found() {
    let out = upgrade(false).run();
    assert!(matches!(out.action, UpgradeAction::FindLatest { include_pre: true }));
    let out = upgrade(true).run();
    assert!(matches!(out.action, UpgradeAction::ReadCached));
    let e = UpgradeEvent::Cached(Ok(Some(version("0.7.1"))));
    let out = upgrade(true).step(&version("0.7.0"), out.state, e);
    assert!(matches!(&out.action, UpgradeAction::Confirm(v) if v == "0.7.1"));
}

#[test]
fn older_versions_are_not_installed() {
    for v in ["0.7.0", "0.6.9", "0.7.0-rc.1", "0.7.0+build.2"] {
        let out = latest(v);
        assert_eq!(said(&out), "already up to date");
        assert!(matches!(out.action, UpgradeAction::Done(Ok(()))));
    }
}

#[test]
fn newer_versions_are_installed() {
    let cmd = upgrade(false);
    let step = |s, e| cmd.step(&version("0.7.0"), s, e);
    let out = latest("0.10.0-rc.2+registry.1");
    assert!(matches!(&out.action, UpgradeAction::Confirm(v) if v == "0.10.0-rc.2"));
    let out = step(out.state, UpgradeEvent::Confirmed(Ok(true)));
    assert!(matches!(&out.action, UpgradeAction::GetOrDownload(q) if q.text == "=0.10.0-rc.2"));
    let out = step(out.state, UpgradeEvent::Installed(Ok("/bin/x".to_string())));
    assert!(matches!(&out.action, UpgradeAction::Replace(p) if p == "/bin/x"));
    let out = step(out.state, UpgradeEvent::Replaced(Ok(())));
    assert_eq!(said(&out), "upgraded to version 0.10.0-rc.2!");
    assert!(matches!(out.action, UpgradeAction::Done(Ok(()))));
}

#[test]
fn upgrades_can_be_cancelled() {
    let out = latest("1.0.0");
    let e = UpgradeEvent::Confirmed(Ok(false));
    let out = upgrade(false).step(&version("0.7.0"), out.state, e);
    assert_eq!(said(&out), "cancelled upgrade");
    assert!(matches!(out.action, UpgradeAction::Done(Ok(()))));
    assert_eq!(
        upgrade_question("pesde", "0.7.0", "1.0.0"),
        "are you sure you want to upgrade pesde from 0.7.0 to 1.0.0?"
    );
}

#[test]
fn upgrades_can_fail() {
    let x = || Failure::of("x");
    let fail = |s, e| match upgrade(true).step(&version("0.7.0"), s, e).action {
        UpgradeAction::Done(Err(f)) => f.message,
        _ => panic!("no error"),
    };
    assert_eq!(fail(UpgradeState::AwaitCached, UpgradeEvent::Cached(Err(x()))), "x");
    assert_eq!(
        fail(UpgradeState::AwaitCached, UpgradeEvent::Cached(Ok(None))),
        "no cached version found"
    );
    assert_eq!(fail(UpgradeState::AwaitLatest, UpgradeEvent::Latest(Err(x()))), "x");
    let v = || version("1.0.0");
    assert_eq!(fail(UpgradeState::AwaitConfirm(v()), UpgradeEvent::Confirmed(Err(x()))), "x");
    assert_eq!(fail(UpgradeState::AwaitEngine(v()), UpgradeEvent::Installed(Err(x()))), "x");
    assert_eq!(fail(UpgradeState::AwaitReplaced(v()), UpgradeEvent::Replaced(Err(x()))), "x");
}

// All commands.

#[test]
fn commands_are_handed_what_they_need() {
    assert_eq!(Subcommand::Config.run(), Resources::Nothing);
    assert_eq!(Subcommand::SelfInstall.run(), Resources::Nothing);
    assert_eq!(Subcommand::PatchCommit.run(), Resources::Project);
    assert_eq!(Subcommand::List.run(), Resources::Project);
    assert_eq!(Subcommand::Patch.run(), Resources::ProjectAndClient);
    assert_eq!(Subcommand::Run(run("x")).run(), Resources::ProjectAndClient);
    assert_eq!(Subcommand::SelfUpgrade(upgrade(true)).run(), Resources::ProjectAndClient);
    assert_eq!(Subcommand::Execute(execute(None, true)).run(), Resources::ProjectAndClient);
}
