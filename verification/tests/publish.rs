//! Publishing a package.

use pesde::cli::commands::publish::errors::{Export, PublishError, PublishStage};
use pesde::cli::commands::publish::included::{check_included, Rules};
use pesde::cli::commands::publish::luau::{can_read, judge_tokens, TokenError};
use pesde::cli::commands::publish::notices::{Notice, Tone};
use pesde::cli::commands::publish::paths::{FilePath, Part};
use pesde::cli::commands::publish::steps::{
    judge_reply, AppendFailure, Draft, IndexConfig, MemberOutcome, PackStage, PublishAction,
    PublishCommand, PublishEvent, PublishState, PublishStep, ReadOutcome, Reply,
};
use pesde::cli::commands::publish::workspace::{RunAction, RunEvent};
use pesde::cli::members::{Member, WalkEvent};
use pesde::cli::report::Backtrace;
use pesde::engine::EngineReqs;
use pesde::failure::Failure;
use pesde::git_url::{parse_gix_url, GitUrl};
use pesde::project::{
    AuthConfig, Dependency, DependencySpecifiers, DependencyType, GraphNode, Index, Lockfile,
    Manifest, PackageId, Project, Script, Target, TargetKind, Token, VersionTypeOrReq,
};
use pesde::version::{read_version, VersionReq};

fn url(s: &str) -> GitUrl {
    parse_gix_url(s).unwrap()
}

fn file(path: &str) -> FilePath {
    FilePath {
        text: path.to_string(),
        parts: path.split('/').map(|p| Part::Normal(p.to_string())).collect(),
    }
}

fn files(paths: &[&str]) -> Vec<FilePath> {
    paths.iter().map(|p| file(p)).collect()
}

fn rules() -> Rules {
    Rules {
        forbidden_files: vec!["default.project.json".to_string(), "secret.txt".to_string()],
        ignored_files: vec!["foreman.toml".to_string()],
        ignored_dirs: vec!["node_modules".to_string()],
    }
}

fn command() -> PublishCommand {
    PublishCommand {
        dry_run: false,
        yes: false,
        index: "default".to_string(),
        skip_validation: false,
    }
}

fn project() -> Project {
    Project {
        package_dir: "/pkg".to_string(),
        workspace_dir: Some("/ws".to_string()),
        data_dir: "/data".to_string(),
        cas_dir: "/cas".to_string(),
        auth_config: AuthConfig {
            tokens: vec![Token {
                url: url("https://example.com/index"),
                token: "secret".to_string(),
            }],
        },
    }
}

fn manifest(kind: TargetKind) -> Manifest {
    Manifest {
        name: "acme/tool".to_string(),
        version: read_version("1.2.3").unwrap(),
        description: Some("a tool".to_string()),
        license: None,
        authors: vec!["a".to_string(), "b".to_string()],
        repository: None,
        target: Target {
            kind,
            lib_path: Some("src/init.luau".to_string()),
            bin_path: None,
            build_files: None,
            scripts: None,
            shown: "luau".to_string(),
        },
        private: false,
        scripts: Vec::new(),
        indices: vec![Index {
            name: "default".to_string(),
            url: url("https://example.com/index"),
        }],
        wally_indices: vec![Index {
            name: "wally".to_string(),
            url: url("https://example.com/wally"),
        }],
        overrides: Vec::new(),
        engines: EngineReqs { pesde: None, lune: None },
        dependencies: Vec::new(),
    }
}

fn roblox(build_files: &[&str]) -> Manifest {
    let mut m = manifest(TargetKind::Roblox);
    m.target.build_files = Some(build_files.iter().map(|s| s.to_string()).collect());
    m
}

fn draft(m: Manifest, paths: &[&str]) -> Draft {
    Draft { manifest: m, paths: files(paths), build_shown: Vec::new() }
}

fn step(state: PublishState, event: PublishEvent) -> PublishStep {
    command().step(&project(), &rules(), state, event)
}

fn error(out: PublishStep) -> Failure {
    match out.action {
        PublishAction::Done(Err(e)) => e.into_failure(),
        _ => panic!("no error"),
    }
}

fn messages(out: &PublishStep) -> Vec<String> {
    out.said.iter().map(|n| n.message()).collect()
}

fn read_manifest(m: Manifest) -> PublishStep {
    step(PublishState::AwaitManifest, PublishEvent::Manifest(Ok(m)))
}

// The manifest.

#[test]
fn publication_starts_with_the_manifest() {
    let out = command().run_impl();
    assert!(matches!(out.action, PublishAction::ReadManifest));
    let out = read_manifest(manifest(TargetKind::Luau));
    assert_eq!(messages(&out), vec!["[now publishing acme/tool luau]"]);
    assert_eq!(out.said[0].tone(), Tone::Title);
    assert!(matches!(out.action, PublishAction::CanonicalizePackage));
}

#[test]
fn private_packages_are_not_published() {
    let mut m = manifest(TargetKind::Luau);
    m.private = true;
    let out = read_manifest(m);
    assert_eq!(messages(&out)[1], "package is private, refusing to publish");
    assert!(matches!(out.action, PublishAction::Done(Ok(()))));
}

#[test]
fn packages_need_exports_and_build_files() {
    let mut m = manifest(TargetKind::Luau);
    m.target.lib_path = None;
    m.target.scripts = Some(Vec::new());
    assert_eq!(error(read_manifest(m)).message, "no exports found in target");
    let m = manifest(TargetKind::Roblox);
    assert_eq!(error(read_manifest(m)).message, "no build files found in target");
    assert_eq!(error(read_manifest(roblox(&[]))).message, "no build files found in target");
    let out = read_manifest(roblox(&["src"]));
    assert!(matches!(out.action, PublishAction::ReadLockfile));
}

#[test]
fn unreadable_manifests_stop_a_publication() {
    let e = PublishEvent::Manifest(Err(Failure::of("no such file")));
    let f = error(step(PublishState::AwaitManifest, e));
    assert_eq!(f.message, "failed to read manifest");
    assert_eq!(f.causes, vec!["no such file".to_string()]);
}

// Dependencies of Roblox packages.

fn lockfile(types: &[Option<DependencyType>]) -> Lockfile {
    Lockfile {
        name: "acme/tool".to_string(),
        version: read_version("1.2.3").unwrap(),
        target: TargetKind::Roblox,
        overrides: Vec::new(),
        graph: types
            .iter()
            .map(|ty| GraphNode {
                id: PackageId { name: "n".to_string(), version_id: "1".to_string() },
                direct: ty.map(|ty| Dependency {
                    alias: "a".to_string(),
                    specifier: DependencySpecifiers::Git("x".to_string()),
                    ty,
                }),
            })
            .collect(),
    }
}

fn inspect(types: &[Option<DependencyType>]) -> PublishStep {
    let s = PublishState::AwaitLockfile(roblox(&["src"]));
    let out = step(s, PublishEvent::Lockfile(Ok(Some(lockfile(types)))));
    assert!(matches!(out.action, PublishAction::FindEngines));
    let out = step(out.state, PublishEvent::Engines(Ok(())));
    assert!(matches!(out.action, PublishAction::InspectDependencies));
    step(out.state, PublishEvent::Proceed)
}

#[test]
fn dependencies_of_roblox_packages_are_inspected() {
    let out = inspect(&[Some(DependencyType::Standard), None, Some(DependencyType::Dev)]);
    assert!(matches!(out.action, PublishAction::AwaitDependency));
    let out = step(out.state, PublishEvent::DependencyTarget(1, Ok(true)));
    assert!(matches!(out.action, PublishAction::Proceed));
    let out = step(out.state, PublishEvent::Proceed);
    assert!(matches!(out.action, PublishAction::AwaitDependency));
    let out = step(out.state, PublishEvent::DependencyTarget(0, Ok(false)));
    let out = step(out.state, PublishEvent::Proceed);
    assert!(matches!(out.action, PublishAction::CanonicalizePackage));
}

#[test]
fn roblox_packages_depend_on_roblox_packages() {
    let out = inspect(&[Some(DependencyType::Peer)]);
    let f = error(step(out.state, PublishEvent::DependencyTarget(0, Ok(true))));
    assert_eq!(f.message, "roblox packages may not depend on non-roblox packages");
    let out = inspect(&[Some(DependencyType::Peer)]);
    let e = PublishEvent::DependencyTarget(0, Err(Failure::of("x")));
    assert_eq!(error(step(out.state, e)).message, "failed to get target of dependency node");
}

#[test]
fn lockfiles_have_to_be_up_to_date() {
    let s = || PublishState::AwaitLockfile(roblox(&["src"]));
    let f = error(step(s(), PublishEvent::Lockfile(Ok(None))));
    assert_eq!(f.message, "outdated lockfile, please run the install command first");
    let f = error(step(s(), PublishEvent::Lockfile(Err(Failure::of("x").context("y")))));
    assert_eq!((f.message.as_str(), f.causes), ("y", vec!["x".to_string()]));
    let s = PublishState::AwaitEngines(roblox(&["src"]), Vec::new());
    assert_eq!(error(step(s, PublishEvent::Engines(Err(Failure::of("z"))))).message, "z");
}

// The files.

fn list(paths: &[&str]) -> PublishStep {
    let s = PublishState::AwaitPackageDir(manifest(TargetKind::Luau));
    let out = step(s, PublishEvent::PackageDir(Ok(())));
    assert!(matches!(out.action, PublishAction::ListFiles));
    step(out.state, PublishEvent::Files(Ok(files(paths))))
}

#[test]
fn listed_files_are_taken() {
    let out = list(&["pesde.toml", "ReadMe.MD", "docs/a.md", "src/init.luau"]);
    assert!(out.said.is_empty());
    match out.state {
        PublishState::Exports(d, Export::Lib) => assert_eq!(d.paths.len(), 4),
        _ => panic!("the files are refused"),
    }
}

#[test]
fn missing_files_are_warned_of() {
    let out = list(&["src/init.luau", "docs"]);
    assert_eq!(
        messages(&out),
        vec![
            "pesde.toml was not included, adding it",
            "no README file included, consider adding one",
        ]
    );
    let out = list(&["pesde.toml", "src/readme.md"]);
    assert_eq!(
        messages(&out),
        vec![
            "no README file included, consider adding one",
            "docs directory not included, consider adding one",
        ]
    );
    assert_eq!(out.said[0].tone(), Tone::Warning);
}

#[test]
fn forbidden_files_are_refused() {
    assert_eq!(
        error(list(&[".git/config"])).message,
        "git directory was included, please remove it"
    );
    assert_eq!(
        error(list(&["a/default.project.json"])).message,
        "default.project.json was included at `a/default.project.json`, this should be generated \
         by the roblox_sync_config_generator script upon dependants installation"
    );
    assert_eq!(
        error(list(&["a/secret.txt"])).message,
        "forbidden file secret.txt was included at `a/secret.txt`"
    );
    assert!(error(list(&["x/node_modules/y"]))
        .message
        .starts_with("forbidden file node_modules was included.\ninfo: if this was"));
    assert!(error(list(&["node_modules/y", "foreman.toml"]))
        .message
        .starts_with("forbidden file foreman.toml was included."));
}

#[test]
fn included_files_come_with_a_verdict() {
    let r = check_included(&rules(), files(&["README", "docs/x", "pesde.toml"]));
    assert!(r.verdict.is_none() && r.said.is_empty());
    assert_eq!(r.paths.len(), 3);
    let r = check_included(&rules(), files(&[".git"]));
    assert!(matches!(r.verdict, Some(PublishError::GitIncluded)));
    assert_eq!(r.said.len(), 1);
    assert_eq!(r.paths[1].text, "pesde.toml");
}

#[test]
fn failing_to_list_files_is_told() {
    let s = PublishState::AwaitFiles(manifest(TargetKind::Luau));
    let f = error(step(s, PublishEvent::Files(Err(Failure::of("x")))));
    assert_eq!(f.message, "failed to get included files");
    let s = PublishState::AwaitPackageDir(manifest(TargetKind::Luau));
    let f = error(step(s, PublishEvent::PackageDir(Err(Failure::of("x")))));
    assert_eq!(f.message, "failed to canonicalize package directory");
}

// Exports.

fn export(d: Draft, contents: &str, found: &str) -> PublishStep {
    let out = step(PublishState::Exports(d, Export::Lib), PublishEvent::Proceed);
    assert!(matches!(out.action, PublishAction::ReadFile(_)));
    let read = ReadOutcome::Contents(contents.to_string());
    let out = step(out.state, PublishEvent::FileRead(read));
    assert!(matches!(out.action, PublishAction::CanonicalizeFile(_)));
    step(out.state, PublishEvent::Canonical(Ok(file(found))))
}

#[test]
fn exports_are_added() {
    let d = draft(manifest(TargetKind::Luau), &["pesde.toml"]);
    let out = export(d, "return {}", "src/init.luau");
    assert_eq!(messages(&out), vec!["lib path was not included, adding src/init.luau"]);
    let d = match out.state {
        PublishState::Exports(d, Export::Bin) => d,
        _ => panic!("the bin path is skipped"),
    };
    assert_eq!(d.paths.len(), 2);
    let out = step(PublishState::Exports(d, Export::Bin), PublishEvent::Proceed);
    assert!(matches!(out.state, PublishState::BuildFiles(_, 0)));
}

#[test]
fn exports_that_are_there_stay() {
    let d = draft(manifest(TargetKind::Luau), &["src/init.luau"]);
    let out = export(d, "return {}", "src/init.luau");
    assert!(out.said.is_empty());
}

#[test]
fn exports_of_roblox_packages_are_built() {
    let out = export(draft(roblox(&["a", "z"]), &["src/init.luau"]), "return 1", "src/init.luau");
    assert_eq!(messages(&out), vec!["lib path was not in build files, adding src"]);
    match out.state {
        PublishState::Exports(d, _) => {
            assert_eq!(d.manifest.target.build_files.unwrap().join(" "), "a src z");
        }
        _ => panic!("the export is refused"),
    }
}

#[test]
fn invalid_luau_is_refused() {
    let d = draft(manifest(TargetKind::Luau), &[]);
    let out = export(d, "local = 1", "src/init.luau");
    assert_eq!(out.said.len(), 1);
    assert_eq!(out.said[0].tone(), Tone::Error);
    let told = out.said[0].message();
    assert!(told.starts_with("file at lib path is not a valid Luau file:\n\t- "));
    assert_eq!(error(out).message, "failed to validate Luau file");
}

#[test]
fn validation_can_be_skipped() {
    let mut cmd = command();
    assert!(cmd.validate_luau_file("x", "local a: number = 1").is_ok());
    assert!(cmd.validate_luau_file("x", "local = 1").is_err());
    assert!(cmd.judge_luau("x", vec!["bad".to_string()]).is_err());
    cmd.skip_validation = true;
    assert!(cmd.validate_luau_file("x", "local = 1").is_ok());
    assert!(cmd.judge_luau("x", vec!["bad".to_string()]).is_ok());
}

/// What the parser finds in code.
fn parser_errors(code: &str) -> Vec<String> {
    match full_moon::parse(code) {
        Ok(_) => Vec::new(),
        Err(errors) => errors.iter().map(|e| e.to_string()).collect(),
    }
}

fn listed(errors: &[String]) -> String {
    let lines: String = errors.iter().map(|e| format!("\n\t- {e}")).collect();
    format!("x is not a valid Luau file:{lines}")
}

#[test]
fn accepted_luau_has_no_problems() {
    for code in ["", "\n", "return {}", "local a: number = 1", "#!/usr/bin/lune\nreturn 1"] {
        assert!(command().validate_luau_file("x", code).is_ok(), "{code}");
        assert!(matches!(command().check_luau_file("x", code), Some(Ok(()))), "{code}");
    }
}

#[test]
fn every_error_of_the_parser_is_listed() {
    for code in ["local = 1", "local = \"a", "return \"a", "x = 1..2.3 =", "--[[", "f(\nlocal"] {
        let errors = parser_errors(code);
        assert!(!errors.is_empty(), "{code}");
        let notice = command().validate_luau_file("x", code).unwrap_err();
        assert_eq!(notice.message(), listed(&errors), "{code}");
        let notice = command().check_luau_file("x", code).unwrap().unwrap_err();
        assert_eq!(notice.message(), listed(&errors), "{code}");
    }
    let told = command().validate_luau_file("x", "local = \"a").unwrap_err().message();
    assert!(told.contains("expected either a variable name or `function`"));
    assert!(told.contains("error occurred while tokenizing: unclosed string (1:9 to 1:11)"));
}

#[test]
fn luau_that_lacks_a_token_is_handed_over() {
    for code in ["local x = $", "local x: number $", "@$", "a ~ b", "#!\n--[["] {
        assert!(!can_read(code), "{code}");
        assert!(command().check_luau_file("x", code).is_none(), "{code}");
        let out = export(draft(manifest(TargetKind::Luau), &[]), code, "src/init.luau");
        assert!(out.said.is_empty());
        assert!(matches!(&out.action, PublishAction::ParseLuau(c) if c == code));
        assert!(matches!(&out.state, PublishState::AwaitExportErrors(_, Export::Lib, _)));
        let out = script(code);
        assert!(matches!(&out.action, PublishAction::ParseLuau(c) if c == code));
        assert!(matches!(&out.state, PublishState::AwaitScriptErrors(_, 0, _)));
        let mut cmd = command();
        cmd.skip_validation = true;
        assert!(matches!(cmd.check_luau_file("x", code), Some(Ok(()))));
    }
    for code in ["return \"a", "--[[", "local x = 1e", "return {}"] {
        assert!(can_read(code), "{code}");
    }
}

#[test]
fn luau_that_was_handed_over_is_judged() {
    let errors = parser_errors("local x = $");
    assert_eq!(errors.len(), 2);
    assert!(errors[0].contains("expected an expression"));
    assert!(errors[1].contains("unexpected character $ (1:11 to 1:12)"));
    let lines: String = errors.iter().map(|e| format!("\n\t- {e}")).collect();
    let asked = || export(draft(manifest(TargetKind::Luau), &[]), "local x = $", "src/init.luau");
    let out = step(asked().state, PublishEvent::Parsed(errors.clone()));
    assert_eq!(messages(&out), vec![format!("file at lib path is not a valid Luau file:{lines}")]);
    assert_eq!(error(out).message, "failed to validate Luau file");
    let out = step(script("local x = $").state, PublishEvent::Parsed(errors));
    assert_eq!(messages(&out), vec![format!("the `fmt` script is not a valid Luau file:{lines}")]);
    assert_eq!(error(out).message, "failed to validate Luau file");
    let out = step(asked().state, PublishEvent::Parsed(Vec::new()));
    assert_eq!(messages(&out), vec!["lib path was not included, adding src/init.luau"]);
    assert!(matches!(out.state, PublishState::Exports(_, Export::Bin)));
    let out = step(script("local x = $").state, PublishEvent::Parsed(Vec::new()));
    assert_eq!(messages(&out), vec!["script fmt was not included, adding scripts/fmt.luau"]);
    assert!(matches!(out.state, PublishState::Scripts(_, 1)));
}

#[test]
fn luau_is_judged_by_its_tokens() {
    assert!(judge_tokens(1, &Vec::new()));
    assert!(!judge_tokens(0, &Vec::new()));
    let recovered =
        vec![TokenError::UnclosedComment, TokenError::UnclosedString, TokenError::InvalidNumber];
    assert!(judge_tokens(3, &recovered));
    assert!(!judge_tokens(3, &vec![TokenError::UnclosedString, TokenError::UnexpectedToken]));
    assert!(!judge_tokens(3, &vec![TokenError::InvalidSymbol]));
}

#[test]
fn exports_lie_within_the_package() {
    let with_lib = |p: &str| {
        let mut m = manifest(TargetKind::Luau);
        m.target.lib_path = Some(p.to_string());
        error(export(draft(m, &[]), "return 1", "x")).message
    };
    assert_eq!(with_lib("../x.luau"), "lib path must be within project directory");
    assert_eq!(with_lib("./x.luau"), "lib path must be within project directory");
    assert_eq!(with_lib(""), "lib path must contain at least one part");
    assert_eq!(with_lib("//"), "lib path must contain at least one part");
}

#[test]
fn exports_have_to_be_readable() {
    let read = |which: Export, r: ReadOutcome| {
        let mut m = manifest(TargetKind::Lune);
        m.target.bin_path = Some("b".to_string());
        let s = PublishState::AwaitExport(draft(m, &[]), which);
        error(step(s, PublishEvent::FileRead(r))).message
    };
    assert_eq!(read(Export::Lib, ReadOutcome::NotFound), "lib path does not exist");
    assert_eq!(read(Export::Bin, ReadOutcome::IsDirectory), "bin path must point to a file");
    assert_eq!(
        read(Export::Bin, ReadOutcome::Failed(Failure::of("x"))),
        "failed to read bin path"
    );
    let s = PublishState::AwaitExportPath(
        draft(manifest(TargetKind::Luau), &[]),
        Export::Lib,
        String::new(),
    );
    let f = error(step(s, PublishEvent::Canonical(Err(Failure::of("x")))));
    assert_eq!(f.message, "failed to canonicalize lib path");
}

// Build files.

fn build(d: Draft, exists: bool, is_file: bool) -> PublishStep {
    let out = step(PublishState::BuildFiles(d, 0), PublishEvent::Proceed);
    let name = match &out.action {
        PublishAction::StatBuildFile(n) => n.clone(),
        _ => panic!("the build file is skipped"),
    };
    let parts = file(name.as_str()).parts;
    step(out.state, PublishEvent::BuildFile { exists, is_file, parts })
}

#[test]
fn build_files_are_shown() {
    let out = build(draft(roblox(&["src"]), &["src/init.luau"]), true, false);
    match out.state {
        PublishState::BuildFiles(d, 1) => assert_eq!(d.build_shown, vec!["src/*".to_string()]),
        _ => panic!("the build file is refused"),
    }
    let out = build(draft(roblox(&["a.luau"]), &["a.luau"]), true, true);
    match out.state {
        PublishState::BuildFiles(d, 1) => assert_eq!(d.build_shown, vec!["a.luau".to_string()]),
        _ => panic!("the build file is refused"),
    }
}

#[test]
fn build_files_have_to_be_included() {
    let out = build(draft(roblox(&["src"]), &[]), false, false);
    assert_eq!(error(out).message, "build file src does not exist");
    let out = build(draft(roblox(&["src"]), &["srcs/a"]), true, false);
    assert_eq!(error(out).message, "build file src is not included, please add it");
}

#[test]
fn manifest_is_no_build_file() {
    let d = draft(roblox(&["Pesde.TOML"]), &[]);
    let out = step(PublishState::BuildFiles(d, 0), PublishEvent::Proceed);
    assert_eq!(messages(&out), vec!["pesde.toml is in build files, please remove it"]);
    let out = step(out.state, PublishEvent::Proceed);
    assert!(matches!(out.state, PublishState::Scripts(_, 0)));
    let d = draft(manifest(TargetKind::Luau), &[]);
    let out = step(PublishState::BuildFiles(d, 0), PublishEvent::Proceed);
    assert!(matches!(out.state, PublishState::Scripts(_, 0)));
}

// Scripts.

fn with_script() -> Draft {
    let mut m = manifest(TargetKind::Luau);
    m.target.scripts = Some(vec![Script {
        name: "fmt".to_string(),
        path: "scripts/fmt.luau".to_string(),
    }]);
    draft(m, &["pesde.toml"])
}

fn script(contents: &str) -> PublishStep {
    let out = step(PublishState::Scripts(with_script(), 0), PublishEvent::Proceed);
    assert!(matches!(&out.action, PublishAction::ReadFile(p) if p == "scripts/fmt.luau"));
    let read = ReadOutcome::Contents(contents.to_string());
    let out = step(out.state, PublishEvent::FileRead(read));
    step(out.state, PublishEvent::Canonical(Ok(file("scripts/fmt.luau"))))
}

#[test]
fn scripts_are_added() {
    let out = script("return 1");
    assert_eq!(messages(&out), vec!["script fmt was not included, adding scripts/fmt.luau"]);
    let out = step(out.state, PublishEvent::Proceed);
    match out.state {
        PublishState::Files(d, 0) => assert_eq!(d.paths.len(), 2),
        _ => panic!("the script comes again"),
    }
}

#[test]
fn scripts_have_to_be_valid() {
    let out = script("local = 1");
    assert!(out.said[0].message().starts_with("the `fmt` script is not a valid Luau file:\n"));
    assert_eq!(error(out).message, "failed to validate Luau file");
    let read = |r: ReadOutcome| {
        let s = PublishState::AwaitScript(with_script(), 0);
        error(step(s, PublishEvent::FileRead(r))).message
    };
    assert_eq!(read(ReadOutcome::NotFound), "script fmt does not exist");
    assert_eq!(read(ReadOutcome::IsDirectory), "script fmt must point to a file");
    assert_eq!(read(ReadOutcome::Failed(Failure::of("x"))), "failed to read script fmt");
    let s = PublishState::AwaitScriptPath(with_script(), 0, String::new());
    let f = error(step(s, PublishEvent::Canonical(Err(Failure::of("x")))));
    assert_eq!(f.message, "failed to canonicalize script fmt");
}

// The archive.

fn stat(path: &str, exists: bool, is_file: bool) -> PublishStep {
    let d = draft(manifest(TargetKind::Luau), &[path]);
    let out = step(PublishState::Files(d, 0), PublishEvent::Proceed);
    assert!(matches!(out.action, PublishAction::StatFile(0)));
    let shown = format!("/pkg/{path}");
    step(out.state, PublishEvent::File { exists, is_file, shown })
}

#[test]
fn files_are_put_into_the_archive() {
    let out = stat("a/b", true, true);
    assert!(matches!(out.action, PublishAction::AppendFile(0)));
    let out = step(out.state, PublishEvent::Appended(Ok(())));
    let out = step(out.state, PublishEvent::Proceed);
    assert!(matches!(out.state, PublishState::Dependencies(_, 0)));
    assert!(matches!(stat("a", true, false).action, PublishAction::Proceed));
    assert!(matches!(stat("x/PESDE.toml", true, true).action, PublishAction::Proceed));
}

#[test]
fn each_regular_file_is_packed_once() {
    let d = draft(
        manifest(TargetKind::Luau),
        &["a", "dir", "pesde.toml", "sub/Pesde.TOML", "b/c"],
    );
    let regular = [true, false, true, true, true];
    let mut out = step(PublishState::Files(d, 0), PublishEvent::Proceed);
    let mut looked_at = Vec::new();
    let mut packed = Vec::new();
    while !matches!(out.state, PublishState::Dependencies(_, _)) {
        let event = match out.action {
            PublishAction::StatFile(i) => {
                looked_at.push(i);
                PublishEvent::File { exists: true, is_file: regular[i], shown: String::new() }
            }
            PublishAction::AppendFile(i) => {
                packed.push(i);
                PublishEvent::Appended(Ok(()))
            }
            PublishAction::Proceed => PublishEvent::Proceed,
            _ => panic!("unexpected work"),
        };
        out = step(out.state, event);
    }
    assert_eq!(looked_at, vec![0, 1, 2, 3, 4]);
    assert_eq!(packed, vec![0, 4]);
}

#[test]
fn files_can_be_missing() {
    assert_eq!(error(stat("a", false, false)).message, "included file `/pkg/a` does not exist");
    let mut d = draft(manifest(TargetKind::Luau), &[]);
    d.paths.push(FilePath { text: "..".to_string(), parts: vec![Part::Parent] });
    let e = PublishEvent::File { exists: true, is_file: false, shown: String::new() };
    let f = error(step(PublishState::AwaitFile(d, 0), e));
    assert_eq!(f.message, "failed to get file name");
    let s = || PublishState::AwaitAppend(draft(manifest(TargetKind::Luau), &["a"]), 0);
    let f = error(step(s(), PublishEvent::Appended(Err(AppendFailure::Open(Failure::of("x"))))));
    assert_eq!((f.message.as_str(), f.causes.len()), ("failed to read `a`", 1));
    let f = error(step(s(), PublishEvent::Appended(Err(AppendFailure::Append(Failure::of("x"))))));
    assert_eq!((f.message.as_str(), f.causes.len()), ("x", 0));
}

// Dependencies.

fn depending(specifier: DependencySpecifiers) -> Draft {
    let mut m = manifest(TargetKind::Luau);
    m.dependencies.push(Dependency {
        alias: "dep".to_string(),
        specifier,
        ty: DependencyType::Standard,
    });
    draft(m, &[])
}

fn settle(specifier: DependencySpecifiers) -> PublishStep {
    step(PublishState::Dependencies(depending(specifier), 0), PublishEvent::Proceed)
}

fn settled(out: PublishStep) -> DependencySpecifiers {
    match out.state {
        PublishState::Dependencies(d, 1) => {
            let dep = d.manifest.dependencies.into_iter().next().unwrap();
            assert_eq!(dep.alias, "dep");
            dep.specifier
        }
        _ => panic!("the dependency is refused"),
    }
}

fn pesde_package(index: &str) -> DependencySpecifiers {
    DependencySpecifiers::Pesde {
        name: "acme/dep".to_string(),
        version: VersionReq { text: "^1".to_string() },
        index: index.to_string(),
        target: None,
    }
}

#[test]
fn indices_become_urls() {
    let s = settled(settle(pesde_package("default")));
    assert!(s.same(&pesde_package("https://example.com/index")));
    assert_eq!(
        error(settle(pesde_package("nope"))).message,
        "index nope not found in indices field"
    );
    let wally = |i: &str| DependencySpecifiers::Wally {
        package: "a/b@1".to_string(),
        index: i.to_string(),
    };
    assert!(settled(settle(wally("wally"))).same(&wally("https://example.com/wally")));
    assert_eq!(
        error(settle(wally("nope"))).message,
        "index nope not found in wally_indices field"
    );
    let git = || DependencySpecifiers::Git("x".to_string());
    assert!(settled(settle(git())).same(&git()));
}

#[test]
fn paths_are_not_published() {
    let f = error(settle(DependencySpecifiers::Path("../x".to_string())));
    assert_eq!(f.message, "path dependencies are not allowed in published packages");
}

fn workspace(accepts: VersionTypeOrReq, target: Option<TargetKind>) -> DependencySpecifiers {
    DependencySpecifiers::Workspace { name: "acme/dep".to_string(), accepts, target }
}

fn member(accepts: VersionTypeOrReq, target: Option<TargetKind>, indices: bool) -> PublishStep {
    let out = settle(workspace(accepts, target));
    assert!(matches!(out.action, PublishAction::ResolveWorkspace(0)));
    let found = vec!["old".to_string(), "dep".to_string()];
    let out = step(out.state, PublishEvent::Workspace(Ok(found)));
    assert!(matches!(&out.action, PublishAction::ReadMember(d) if d == "dep"));
    let indices = if indices {
        vec![Index { name: "default".to_string(), url: url("https://example.com/member") }]
    } else {
        Vec::new()
    };
    let read = MemberOutcome::Manifest {
        version: read_version("2.0.1").unwrap(),
        indices,
        target: TargetKind::Lune,
    };
    step(out.state, PublishEvent::Member(read))
}

fn published_member(version: &str, target: TargetKind) -> DependencySpecifiers {
    DependencySpecifiers::Pesde {
        name: "acme/dep".to_string(),
        version: VersionReq { text: version.to_string() },
        index: "https://example.com/member".to_string(),
        target: Some(target),
    }
}

#[test]
fn workspace_dependencies_become_packages() {
    let s = settled(member(VersionTypeOrReq::Wildcard, None, true));
    assert!(s.same(&published_member("*", TargetKind::Lune)));
    let accepts = VersionTypeOrReq::Sign("^".to_string());
    let s = settled(member(accepts, Some(TargetKind::Luau), true));
    assert!(s.same(&published_member("^2.0.1", TargetKind::Luau)));
    let accepts = VersionTypeOrReq::Req(VersionReq { text: ">=1".to_string() });
    let s = settled(member(accepts, None, true));
    assert!(s.same(&published_member(">=1", TargetKind::Lune)));
}

#[test]
fn workspace_dependencies_can_fail() {
    let out = member(VersionTypeOrReq::Wildcard, None, false);
    assert_eq!(error(out).message, "missing default index in workspace package manifest");
    let out = member(VersionTypeOrReq::Sign("?".to_string()), None, false);
    let f = error(out);
    assert_eq!((f.message.as_str(), f.causes.len()), ("failed to parse version for ?", 1));
    let s = || PublishState::AwaitWorkspace(depending(workspace(VersionTypeOrReq::Wildcard, None)), 0);
    let f = error(step(s(), PublishEvent::Workspace(Ok(Vec::new()))));
    assert_eq!(f.message, "no versions found for workspace package");
    let f = error(step(s(), PublishEvent::Workspace(Err(Failure::of("x")))));
    assert_eq!(f.message, "failed to resolve workspace package");
    let mut alone = project();
    alone.workspace_dir = None;
    let e = PublishEvent::Workspace(Ok(vec!["dep".to_string()]));
    let f = error(command().step(&alone, &rules(), s(), e));
    assert_eq!(f.message, "failed to get workspace directory");
    let s = || PublishState::AwaitMember(depending(workspace(VersionTypeOrReq::Wildcard, None)), 0);
    let e = PublishEvent::Member(MemberOutcome::ReadFailed(Failure::of("x")));
    assert_eq!(error(step(s(), e)).message, "failed to read workspace package manifest");
    let e = PublishEvent::Member(MemberOutcome::ParseFailed(Failure::of("x")));
    assert_eq!(error(step(s(), e)).message, "failed to parse workspace package manifest");
}

// The end.

#[test]
fn summary_is_shown() {
    let mut d = draft(manifest(TargetKind::Luau), &["pesde.toml", "src/init.luau"]);
    d.manifest.target.scripts = Some(vec![
        Script { name: "a".to_string(), path: "a".to_string() },
        Script { name: "b".to_string(), path: "b".to_string() },
    ]);
    let out = step(PublishState::Summary(d), PublishEvent::Proceed);
    assert_eq!(out.said[0].message(), "please confirm the following information:");
    assert_eq!(
        out.said[1].message(),
        "name: acme/tool\nversion: 1.2.3\ndescription: a tool\nlicense: (none)\nauthors: a, b\n\
         repository: (none)\ntarget: luau\n\tlib path: src/init.luau\n\tbin path: (none)\n\
         \tscripts: a, b\nincludes: pesde.toml, src/init.luau"
    );
    assert!(matches!(out.action, PublishAction::Confirm));
}

#[test]
fn summary_of_roblox_packages_has_build_files() {
    let mut d = draft(roblox(&["a", "b"]), &["pesde.toml"]);
    d.build_shown = vec!["a/*".to_string(), "b".to_string()];
    d.manifest.authors.clear();
    let out = step(PublishState::Summary(d), PublishEvent::Proceed);
    let text = out.said[1].message();
    assert!(text.contains("\tbuild files: a/*, b\nincludes: pesde.toml"));
    assert!(text.contains("authors: (none)"));
}

#[test]
fn users_are_asked_unless_they_agreed() {
    let d = || draft(manifest(TargetKind::Luau), &[]);
    for (dry_run, yes) in [(true, false), (false, true), (true, true)] {
        let mut cmd = command();
        cmd.dry_run = dry_run;
        cmd.yes = yes;
        let out = cmd.step(&project(), &rules(), PublishState::Summary(d()), PublishEvent::Proceed);
        assert!(matches!(out.action, PublishAction::Pack));
    }
    let s = || PublishState::AwaitConfirm(d());
    let out = step(s(), PublishEvent::Confirmed(Ok(true)));
    assert!(matches!(out.action, PublishAction::Pack));
    let out = step(s(), PublishEvent::Confirmed(Ok(false)));
    assert_eq!(messages(&out), vec!["publish aborted"]);
    assert!(matches!(out.action, PublishAction::Done(Ok(()))));
    assert_eq!(error(step(s(), PublishEvent::Confirmed(Err(Failure::of("x"))))).message, "x");
}

fn packed(cmd: &PublishCommand, size: usize, max: usize) -> PublishStep {
    let d = draft(manifest(TargetKind::Luau), &[]);
    let go = |s, e| cmd.step(&project(), &rules(), s, e);
    let out = go(PublishState::AwaitArchive(d), PublishEvent::Archived(Ok(size)));
    assert!(matches!(&out.action, PublishAction::Refresh(u)
        if u.text == "https://example.com/index"));
    let out = go(out.state, PublishEvent::Refreshed(Ok(())));
    assert!(matches!(out.action, PublishAction::ReadConfig(_)));
    let config = IndexConfig { max_archive_size: max, api: "https://api.example.com".to_string() };
    go(out.state, PublishEvent::Config(Ok(config)))
}

#[test]
fn archives_are_uploaded() {
    match packed(&command(), 10, 10).action {
        PublishAction::Upload { url, token } => {
            assert_eq!(url, "https://api.example.com/v1/packages");
            assert_eq!(token.as_deref(), Some("secret"));
        }
        _ => panic!("nothing is uploaded"),
    }
}

#[test]
fn archives_can_be_too_large() {
    let f = error(packed(&command(), 1234, 1000));
    assert_eq!(f.message, "archive size exceeds maximum size of 1000 bytes by 234 bytes");
}

#[test]
fn dry_runs_write_a_file() {
    let mut cmd = command();
    cmd.dry_run = true;
    let out = packed(&cmd, 1, 2);
    assert!(matches!(out.action, PublishAction::WriteTarball));
    let out = step(out.state, PublishEvent::Written(Ok(())));
    assert_eq!(messages(&out), vec!["(dry run) package written to package.tar.gz"]);
    assert!(matches!(out.action, PublishAction::Done(Ok(()))));
    let out = step(PublishState::AwaitTarball, PublishEvent::Written(Err(Failure::of("x"))));
    assert_eq!(error(out).message, "x");
}

#[test]
fn packing_can_fail() {
    let pack = |stage: PackStage| {
        let d = draft(manifest(TargetKind::Luau), &[]);
        let e = PublishEvent::Archived(Err((stage, Failure::of("x"))));
        error(step(PublishState::AwaitArchive(d), e)).message
    };
    assert_eq!(pack(PackStage::TempManifest), "x");
    assert_eq!(pack(PackStage::SerializeManifest), "failed to serialize manifest");
    assert_eq!(pack(PackStage::WriteTempManifest), "failed to write temp manifest file");
    assert_eq!(pack(PackStage::RewindTempManifest), "failed to rewind temp manifest file");
    assert_eq!(pack(PackStage::AppendManifest), "x");
    assert_eq!(pack(PackStage::FinishArchive), "failed to finish archive");
    let mut m = manifest(TargetKind::Luau);
    m.indices.clear();
    let s = PublishState::AwaitArchive(draft(m, &[]));
    assert_eq!(error(step(s, PublishEvent::Archived(Ok(1)))).message, "missing index default");
}

#[test]
fn index_can_fail() {
    let u = || url("https://example.com/index");
    let s = PublishState::AwaitRefresh(1, u());
    let f = error(step(s, PublishEvent::Refreshed(Err(Failure::of("x")))));
    assert_eq!(f.message, "failed to refresh source");
    let s = PublishState::AwaitConfig(1, u());
    let f = error(step(s, PublishEvent::Config(Err(Failure::of("x")))));
    assert_eq!(f.message, "failed to get source config");
    let e = PublishEvent::Response(Err(Failure::of("x")));
    assert_eq!(error(step(PublishState::AwaitResponse, e)).message, "failed to send request");
    let e = PublishEvent::Response(Ok(Reply { status: 200, text: Err(Failure::of("x")) }));
    assert_eq!(error(step(PublishState::AwaitResponse, e)).message, "failed to get response text");
}

fn reply(status: u16) -> PublishStep {
    let e = PublishEvent::Response(Ok(Reply { status, text: Ok("text".to_string()) }));
    step(PublishState::AwaitResponse, e)
}

#[test]
fn replies_are_understood() {
    let out = reply(200);
    assert_eq!(messages(&out), vec!["text"]);
    assert_eq!(out.said[0].tone(), Tone::Success);
    assert!(matches!(out.action, PublishAction::Done(Ok(()))));
    assert_eq!(error(reply(409)).message, "package version already exists");
    assert_eq!(error(reply(403)).message, "unauthorized to publish under this scope");
    assert_eq!(error(reply(400)).message, "invalid package: text");
    assert_eq!(
        error(reply(500)).message,
        "failed to publish package: 500 Internal Server Error (text)"
    );
    assert_eq!(error(reply(302)).message, "failed to publish package: 302 Found (text)");
}

#[test]
fn replies_are_judged_by_their_status() {
    let out = judge_reply(418, "418 shown".to_string(), "t".to_string());
    assert_eq!(error(out).message, "failed to publish package: 418 shown (t)");
    let out = judge_reply(299, String::new(), "t".to_string());
    assert!(matches!(out.action, PublishAction::Done(Ok(()))));
}

#[test]
fn stages_without_words_leave_the_error_alone() {
    let e = PublishError::Outside(PublishStage::FindEngines, Failure::of("a").context("b"));
    assert_eq!(e.message(), "b");
    let f = e.into_failure();
    assert_eq!((f.message.as_str(), f.causes), ("b", vec!["a".to_string()]));
    assert!(PublishStage::Confirm.describe().is_none());
    assert_eq!(PublishStage::SendRequest.describe().unwrap(), "failed to send request");
}

#[test]
fn notices_of_invalid_files_list_the_errors() {
    let n = Notice::InvalidLuau {
        file: "x".to_string(),
        errors: vec!["a".to_string(), "b".to_string()],
    };
    assert_eq!(n.message(), "x is not a valid Luau file:\n\t- a\n\t- b");
}

#[test]
fn a_package_is_published_from_start_to_end() {
    let mut out = command().run_impl();
    let mut asked = false;
    let mut packed = Vec::new();
    let mut uploaded = false;
    for _ in 0..60 {
        let event = match out.action {
            PublishAction::Proceed | PublishAction::InspectDependencies => PublishEvent::Proceed,
            PublishAction::ReadManifest => {
                PublishEvent::Manifest(Ok(manifest(TargetKind::Luau)))
            }
            PublishAction::CanonicalizePackage => PublishEvent::PackageDir(Ok(())),
            PublishAction::ListFiles => {
                PublishEvent::Files(Ok(files(&["README.md", "docs/a.md"])))
            }
            PublishAction::ReadFile(_) => {
                PublishEvent::FileRead(ReadOutcome::Contents("return {}".to_string()))
            }
            PublishAction::CanonicalizeFile(p) => PublishEvent::Canonical(Ok(file(p.as_str()))),
            PublishAction::StatFile(_) => {
                PublishEvent::File { exists: true, is_file: true, shown: String::new() }
            }
            PublishAction::AppendFile(i) => {
                packed.push(i);
                PublishEvent::Appended(Ok(()))
            }
            PublishAction::Confirm => {
                asked = true;
                PublishEvent::Confirmed(Ok(true))
            }
            PublishAction::Pack => PublishEvent::Archived(Ok(5)),
            PublishAction::Refresh(_) => PublishEvent::Refreshed(Ok(())),
            PublishAction::ReadConfig(_) => PublishEvent::Config(Ok(IndexConfig {
                max_archive_size: 10,
                api: String::new(),
            })),
            PublishAction::Upload { .. } => {
                assert!(asked);
                uploaded = true;
                PublishEvent::Response(Ok(Reply { status: 201, text: Ok("done".to_string()) }))
            }
            PublishAction::Done(r) => {
                assert!(r.is_ok());
                assert!(uploaded);
                // The manifest, in the third place, is not packed with the others.
                assert_eq!(packed, vec![0, 1, 3]);
                return;
            }
            _ => panic!("unexpected work"),
        };
        out = step(out.state, event);
    }
    panic!("the publication does not end");
}

// Workspaces.

#[test]
fn members_are_published_after_the_root() {
    let mut root = project();
    root.workspace_dir = None;
    let cmd = command();
    let out = cmd.run();
    assert!(matches!(out.action, RunAction::PublishRoot));
    let failed = RunEvent::Published(Err(PublishError::NoExports), Backtrace::Disabled);
    let out = cmd.step_workspace(&root, out.state, failed);
    assert_eq!(out.lines[0].marked, "error occurred publishing workspace root");
    assert_eq!(out.lines[0].after, ": no exports found in target\n");
    assert!(matches!(out.action, RunAction::ListMembers));
    let out = cmd.step_workspace(&root, out.state, RunEvent::Walk(WalkEvent::Listed(Ok(()))));
    let m = Member {
        path: "/pkg/a".to_string(),
        relative: "a".to_string(),
        name: "acme/a".to_string(),
        kind: TargetKind::Luau,
    };
    let next = RunEvent::Walk(WalkEvent::Member(Some(Ok(m))));
    let out = cmd.step_workspace(&root, out.state, next);
    assert!(matches!(&out.action, RunAction::PublishMember(p) if p.package_dir == "/pkg/a"));
    let failed = RunEvent::Published(Err(PublishError::NoFileName), Backtrace::Disabled);
    let out = cmd.step_workspace(&root, out.state, failed);
    assert_eq!(out.lines[0].marked, "error occurred publishing workspace member");
    assert!(matches!(out.action, RunAction::NextMember));
    let out = cmd.step_workspace(&root, out.state, RunEvent::Walk(WalkEvent::Member(None)));
    assert!(matches!(out.action, RunAction::Done(Ok(()))));
}

#[test]
fn a_member_is_published_alone() {
    let cmd = command();
    let failed = RunEvent::Published(Err(PublishError::NoExports), Backtrace::Disabled);
    let out = cmd.step_workspace(&project(), cmd.run().state, failed);
    assert!(out.lines.is_empty());
    assert!(matches!(out.action, RunAction::Done(Err(e)) if e.message == "no exports found in target"));
    let done = RunEvent::Published(Ok(()), Backtrace::Disabled);
    let out = cmd.step_workspace(&project(), cmd.run().state, done);
    assert!(matches!(out.action, RunAction::Done(Ok(()))));
}

#[test]
fn a_workspace_that_cannot_be_listed_is_told() {
    let mut root = project();
    root.workspace_dir = None;
    let cmd = command();
    let done = RunEvent::Published(Ok(()), Backtrace::Disabled);
    let out = cmd.step_workspace(&root, cmd.run().state, done);
    assert!(out.lines.is_empty());
    let e = RunEvent::Walk(WalkEvent::Listed(Err(Failure::of("x"))));
    let out = cmd.step_workspace(&root, out.state, e);
    assert!(matches!(out.action, RunAction::Done(Err(e)) if e.message == "x"));
}
