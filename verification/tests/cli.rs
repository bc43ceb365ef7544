//! The parts that commands are made of.

use pesde::cli::dirs::{base_dir, bin_dir, config_path, data_dir, engines_dir};
use pesde::cli::identifiers::{
    read_form, split_versioned, AnyPackageIdentifier, Form, ReadName, VersionedPackageName,
};
use pesde::cli::index::{dep_type_to_key, get_index, pick_index};
use pesde::cli::lockfile::{up_to_date_lockfile, LockfileRead};
use pesde::cli::members::{
    run_on_workspace_members, shift_project_dir, step_members, Member, MemberList, WalkAction,
    WalkEvent, WalkState,
};
use pesde::cli::overrides::{resolve_overrides, same_overrides};
use pesde::cli::report::{display_err, Backtrace, Mark};
use pesde::engine::EngineReqs;
use pesde::failure::Failure;
use pesde::git_url::{parse_gix_url, GitUrl};
use pesde::project::{
    AuthConfig, Dependency, DependencySpecifiers, DependencyType, GraphNode, Index, Lockfile,
    Manifest, Override, OverrideSpecifier, PackageId, Project, ResolvedOverride, Target,
    TargetKind, Token, VersionTypeOrReq,
};
use pesde::version::{read_version, VersionReq};

fn url(s: &str) -> GitUrl {
    parse_gix_url(s).unwrap()
}

fn git(s: &str) -> DependencySpecifiers {
    DependencySpecifiers::Git(s.to_string())
}

fn dependency(alias: &str, specifier: DependencySpecifiers, ty: DependencyType) -> Dependency {
    Dependency { alias: alias.to_string(), specifier, ty }
}

fn manifest() -> Manifest {
    Manifest {
        name: "acme/tool".to_string(),
        version: read_version("1.0.0").unwrap(),
        description: None,
        license: None,
        authors: Vec::new(),
        repository: None,
        target: Target {
            kind: TargetKind::Luau,
            lib_path: None,
            bin_path: None,
            build_files: None,
            scripts: None,
            shown: "luau".to_string(),
        },
        private: false,
        scripts: Vec::new(),
        indices: vec![
            Index { name: "default".to_string(), url: url("https://example.com/index") },
            Index { name: "other".to_string(), url: url("https://example.com/other") },
        ],
        wally_indices: Vec::new(),
        overrides: Vec::new(),
        engines: EngineReqs { pesde: None, lune: None },
        dependencies: Vec::new(),
    }
}

fn lockfile() -> Lockfile {
    Lockfile {
        name: "acme/tool".to_string(),
        version: read_version("1.0.0").unwrap(),
        target: TargetKind::Luau,
        overrides: Vec::new(),
        graph: Vec::new(),
    }
}

fn node(name: &str, version: &str, direct: Option<Dependency>) -> GraphNode {
    GraphNode {
        id: PackageId { name: name.to_string(), version_id: version.to_string() },
        direct,
    }
}

fn project(workspace: Option<&str>) -> Project {
    Project {
        package_dir: "/work/pkg".to_string(),
        workspace_dir: workspace.map(|s| s.to_string()),
        data_dir: "/data".to_string(),
        cas_dir: "/cas".to_string(),
        auth_config: AuthConfig {
            tokens: vec![Token { url: url("https://github.com"), token: "t".to_string() }],
        },
    }
}

// Directories.

#[test]
fn directories_lie_in_the_home_directory() {
    let p = base_dir(None, Some("/home/a")).unwrap();
    assert_eq!((p.root.as_str(), p.parts), ("/home/a", vec![".pesde".to_string()]));
    let names = [
        bin_dir(None, Some("/h")),
        engines_dir(None, Some("/h")),
        config_path(None, Some("/h")),
        data_dir(None, Some("/h")),
    ]
    .map(|r| r.unwrap().parts.join("/"));
    assert_eq!(
        names,
        [".pesde/bin", ".pesde/engines", ".pesde/config.toml", ".pesde/data"].map(String::from)
    );
}

#[test]
fn directories_lie_where_the_user_wants_them() {
    let p = bin_dir(Some("/elsewhere"), Some("/home/a")).unwrap();
    assert_eq!((p.root.as_str(), p.parts), ("/elsewhere", vec!["bin".to_string()]));
    let p = data_dir(Some(""), None).unwrap();
    assert_eq!((p.root.as_str(), p.parts), ("", vec!["data".to_string()]));
}

#[test]
fn without_a_home_there_are_no_directories() {
    let e = config_path(None, None).unwrap_err();
    assert_eq!(e.message, "failed to get home directory");
    assert!(e.causes.is_empty());
}

// Overrides.

#[test]
fn overrides_are_settled() {
    let mut m = manifest();
    m.overrides = vec![
        Override { key: "a".to_string(), specifier: OverrideSpecifier::Specifier(git("x")) },
        Override { key: "b>c".to_string(), specifier: OverrideSpecifier::Alias("d".to_string()) },
    ];
    let all = Ok(vec![
        dependency("e", git("no"), DependencyType::Dev),
        dependency("d", git("y"), DependencyType::Standard),
    ]);
    let r = resolve_overrides(&m, &all).unwrap();
    assert_eq!(r.len(), 2);
    assert!(r[0].key == "a" && r[0].specifier.same(&git("x")));
    assert!(r[1].key == "b>c" && r[1].specifier.same(&git("y")));
}

#[test]
fn overrides_of_unknown_aliases_are_refused() {
    let mut m = manifest();
    m.overrides = vec![
        Override { key: "a".to_string(), specifier: OverrideSpecifier::Alias("x".to_string()) },
        Override { key: "b".to_string(), specifier: OverrideSpecifier::Alias("y".to_string()) },
    ];
    let e = resolve_overrides(&m, &Ok(Vec::new())).unwrap_err();
    assert_eq!(e.message, "alias `x` not found in manifest");
    let e = resolve_overrides(&m, &Err(Failure::of("twice"))).unwrap_err();
    assert_eq!(e.message, "failed to get all dependencies");
    assert_eq!(e.causes, vec!["twice".to_string()]);
}

#[test]
fn overrides_without_aliases_need_no_dependencies() {
    let mut m = manifest();
    m.overrides = vec![
        Override { key: "a".to_string(), specifier: OverrideSpecifier::Specifier(git("x")) },
    ];
    assert_eq!(resolve_overrides(&m, &Err(Failure::of("twice"))).unwrap().len(), 1);
}

// Lockfiles.

fn fresh(m: Manifest, l: Lockfile, all: Vec<Dependency>) -> bool {
    up_to_date_lockfile(Ok(m), LockfileRead::Lockfile(l), &Ok(all)).unwrap().is_some()
}

#[test]
fn lockfile_is_up_to_date() {
    let all = vec![dependency("a", git("x"), DependencyType::Dev)];
    let mut l = lockfile();
    l.graph = vec![
        node("n", "1", None),
        node("m", "1", Some(dependency("other", git("x"), DependencyType::Dev))),
    ];
    assert!(fresh(manifest(), l, all));
    assert!(fresh(manifest(), lockfile(), Vec::new()));
}

#[test]
fn lockfile_is_outdated() {
    let mut l = lockfile();
    l.name = "acme/else".to_string();
    assert!(!fresh(manifest(), l, Vec::new()));
    let mut l = lockfile();
    l.version = read_version("1.0.0+b").unwrap();
    assert!(!fresh(manifest(), l, Vec::new()));
    let mut l = lockfile();
    l.target = TargetKind::Lune;
    assert!(!fresh(manifest(), l, Vec::new()));
    let mut l = lockfile();
    l.overrides = vec![ResolvedOverride { key: "a".to_string(), specifier: git("x") }];
    assert!(!fresh(manifest(), l, Vec::new()));
    let mut l = lockfile();
    l.graph = vec![node("m", "1", Some(dependency("a", git("x"), DependencyType::Standard)))];
    assert!(!fresh(manifest(), l, vec![dependency("a", git("x"), DependencyType::Dev)]));
}

#[test]
fn overrides_are_compared_whatever_their_order() {
    let over = |key: &str, s: &str| ResolvedOverride { key: key.to_string(), specifier: git(s) };
    let with_overrides = || {
        let mut m = manifest();
        m.overrides = vec![
            Override {
                key: "a".to_string(),
                specifier: OverrideSpecifier::Specifier(git("x")),
            },
            Override {
                key: "b".to_string(),
                specifier: OverrideSpecifier::Specifier(git("y")),
            },
        ];
        m
    };
    let locked = |overrides: Vec<ResolvedOverride>| {
        let mut l = lockfile();
        l.overrides = overrides;
        fresh(with_overrides(), l, Vec::new())
    };
    assert!(locked(vec![over("a", "x"), over("b", "y")]));
    assert!(locked(vec![over("b", "y"), over("a", "x")]));
    assert!(!locked(vec![over("a", "y"), over("b", "x")]));
    assert!(!locked(vec![over("a", "x")]));
    assert!(!locked(vec![over("a", "x"), over("b", "y"), over("c", "z")]));
    assert!(same_overrides(&Vec::new(), &Vec::new()));
    assert!(!same_overrides(&vec![over("a", "x")], &Vec::new()));
}

#[test]
fn lockfiles_may_hold_more_packages() {
    let all = || vec![dependency("a", git("x"), DependencyType::Standard)];
    let renamed = dependency("other", git("x"), DependencyType::Standard);
    let mut l = lockfile();
    l.graph = vec![
        node("acme/first", "1.0.0", None),
        node("acme/x", "1.0.0", Some(renamed)),
        node("acme/last", "1.0.0", None),
    ];
    assert!(fresh(manifest(), l, all()));
    let mut l = lockfile();
    l.graph = vec![node(
        "acme/x",
        "1.0.0",
        Some(dependency("a", git("x"), DependencyType::Dev)),
    )];
    assert!(!fresh(manifest(), l, all()));
}

#[test]
fn lockfile_may_be_missing_or_unreadable() {
    let all = Ok(Vec::new());
    assert!(up_to_date_lockfile(Ok(manifest()), LockfileRead::NotFound, &all).unwrap().is_none());
    let e = up_to_date_lockfile(Ok(manifest()), LockfileRead::Failed(Failure::of("bad")), &all);
    assert_eq!(e.unwrap_err().message, "bad");
    let e = up_to_date_lockfile(Err(Failure::of("none")), LockfileRead::NotFound, &all);
    assert_eq!(e.unwrap_err().message, "none");
}

#[test]
fn lockfile_errors_come_after_the_cheap_comparisons() {
    let all = Err(Failure::of("twice"));
    let r = up_to_date_lockfile(Ok(manifest()), LockfileRead::Lockfile(lockfile()), &all);
    let e = r.unwrap_err();
    assert_eq!((e.message.as_str(), e.causes.len()), ("failed to get all dependencies", 1));
    let mut l = lockfile();
    l.target = TargetKind::Roblox;
    assert!(up_to_date_lockfile(Ok(manifest()), LockfileRead::Lockfile(l), &all).unwrap().is_none());
}

// Names.

#[test]
fn names_are_split_from_versions() {
    assert_eq!(split_versioned("acme/tool@1.0"), ("acme/tool", Some("1.0")));
    assert_eq!(split_versioned("acme/tool"), ("acme/tool", None));
    assert_eq!(split_versioned("a@b@c"), ("a", Some("b@c")));
}

#[test]
fn versioned_names_are_read() {
    let name = Ok::<String, Failure>("acme/tool".to_string());
    let r = VersionedPackageName::<VersionReq, String>::from_str("acme/tool@1", name).unwrap();
    assert_eq!((r.0.as_str(), r.1.unwrap().text.as_str()), ("acme/tool", "^1"));
    let r = VersionedPackageName::<VersionReq, String>::from_str("a", Ok("a".to_string())).unwrap();
    assert!(r.1.is_none());
}

#[test]
fn version_errors_come_before_name_errors() {
    let r = VersionedPackageName::<VersionReq, String>::from_str("?@?", Err(Failure::of("name")));
    let e = r.unwrap_err();
    assert_ne!(e.message, "name");
    let r = VersionedPackageName::<VersionReq, String>::from_str("?@1", Err(Failure::of("name")));
    assert_eq!(r.unwrap_err().message, "name");
    let r = VersionedPackageName::<String, String>::from_parts(
        Some(Err(Failure::of("version"))),
        Err(Failure::of("name")),
    );
    assert_eq!(r.unwrap_err().message, "version");
}

#[test]
fn packages_are_picked_from_the_graph() {
    let graph = vec![node("a", "1", None), node("b", "1", None), node("b", "2", None)];
    let pick = |n: &str, v: Option<&str>| {
        VersionedPackageName(n.to_string(), v.map(|s| s.to_string())).get(&graph)
    };
    assert_eq!(pick("a", None).unwrap().to_text(), "a@1");
    assert_eq!(pick("a", Some("7")).unwrap().to_text(), "a@7");
    assert_eq!(pick("c", None).unwrap_err().message, "package not found");
    assert_eq!(
        pick("b", None).unwrap_err().message,
        "multiple versions found, please specify one of: b@1, b@2"
    );
}

#[test]
fn id_texts_are_read_back() {
    let id = PackageId { name: "acme/tool".to_string(), version_id: "1.0.0+luau".to_string() };
    assert_eq!(split_versioned(id.to_text().as_str()), ("acme/tool", Some("1.0.0+luau")));
    assert_eq!(id.copy().to_text(), id.to_text());
}

#[test]
fn forms_of_identifiers_are_told_apart() {
    assert!(matches!(read_form("gh#a/b#main"), Form::Url { url, rev }
        if url == "https://github.com/a/b" && rev == "main"));
    assert!(matches!(read_form("gh#a/b"), Form::NoRevision));
    assert!(matches!(read_form("https://e.com/x#1#2"), Form::Url { url, rev }
        if url == "https://e.com/x" && rev == "1#2"));
    assert!(matches!(read_form("https://e.com/x"), Form::NoRevision));
    assert!(matches!(read_form("workspace:a@^"), Form::Workspace(s) if s == "a@^"));
    assert!(matches!(read_form("path:../x"), Form::Path(s) if s == "../x"));
    assert!(matches!(read_form("acme/tool@1"), Form::Name(s) if s == "acme/tool@1"));
}

fn identify(s: &str) -> Result<AnyPackageIdentifier<String, String>, Failure> {
    let name = match read_form(s) {
        Form::Name(n) => ReadName::Package(Ok(VersionedPackageName(n, None))),
        Form::Workspace(n) => ReadName::Member(Ok(VersionedPackageName(
            n,
            Some(VersionTypeOrReq::Wildcard),
        ))),
        _ => ReadName::Nothing,
    };
    AnyPackageIdentifier::from_str(s, name)
}

#[test]
fn identifiers_are_read() {
    match identify("gh#a/b#main").unwrap() {
        AnyPackageIdentifier::Url((u, rev)) => {
            assert_eq!((u.text.as_str(), rev.as_str()), ("https://github.com/a/b", "main"));
        }
        _ => panic!("no URL"),
    }
    assert_eq!(identify("gh#a/b").unwrap_err().message, "missing revision");
    assert_eq!(identify("https://e.com").unwrap_err().message, "missing revision");
    assert!(identify("https://[#x").unwrap_err().message.contains("can not be parsed"));
    assert!(matches!(identify("path:a").unwrap(), AnyPackageIdentifier::Path(p) if p == "a"));
    assert!(matches!(identify("workspace:a").unwrap(), AnyPackageIdentifier::Workspace(n)
        if n.0 == "a"));
    assert!(matches!(identify("a/b").unwrap(), AnyPackageIdentifier::PackageName(n)
        if n.0 == "a/b"));
}

#[test]
fn identifier_errors_of_names_are_handed_on() {
    let r = AnyPackageIdentifier::<String, String>::from_str(
        "?",
        ReadName::Package(Err(Failure::of("name"))),
    );
    assert_eq!(r.unwrap_err().message, "name");
    let r = AnyPackageIdentifier::<String, String>::from_str(
        "workspace:?",
        ReadName::Member(Err(Failure::of("member"))),
    );
    assert_eq!(r.unwrap_err().message, "member");
}

// Members.

#[test]
fn project_is_shifted() {
    let p = shift_project_dir(&project(None), "/work/pkg/a".to_string());
    assert_eq!(p.package_dir, "/work/pkg/a");
    assert_eq!(p.workspace_dir.as_deref(), Some("/work/pkg"));
    assert_eq!((p.data_dir.as_str(), p.cas_dir.as_str()), ("/data", "/cas"));
    assert_eq!(p.auth_config.tokens.len(), 1);
    assert_eq!(p.auth_config.tokens[0].token, "t");
    let out = run_on_workspace_members(&p);
    assert!(matches!(out.action, WalkAction::Done(Ok(list)) if list.entries.is_empty()));
}

fn member(relative: &str, name: &str, kind: TargetKind) -> WalkEvent {
    WalkEvent::Member(Some(Ok(Member {
        path: format!("/work/pkg/{relative}"),
        relative: relative.to_string(),
        name: name.to_string(),
        kind,
    })))
}

#[test]
fn members_are_gone_through() {
    let root = project(None);
    let out = run_on_workspace_members(&root);
    assert!(matches!(out.action, WalkAction::ListMembers));
    let out = step_members(&root, out.state, WalkEvent::Listed(Ok(())));
    assert!(matches!(out.action, WalkAction::NextMember));
    // The root itself is noted, and nothing is done for it.
    let out = step_members(&root, out.state, member("", "a", TargetKind::Luau));
    assert!(matches!(out.action, WalkAction::NextMember));
    let out = step_members(&root, out.state, member("b", "b", TargetKind::Luau));
    match &out.action {
        WalkAction::Run(p) => {
            assert_eq!(p.package_dir, "/work/pkg/b");
            assert_eq!(p.workspace_dir.as_deref(), Some("/work/pkg"));
        }
        _ => panic!("the member is left out"),
    }
    let out = step_members(&root, out.state, WalkEvent::Ran(Ok(())));
    let out = step_members(&root, out.state, member("c", "b", TargetKind::Luau));
    let out = step_members(&root, out.state, WalkEvent::Ran(Ok(())));
    let out = step_members(&root, out.state, WalkEvent::Member(None));
    match out.action {
        WalkAction::Done(Ok(list)) => {
            let found: Vec<_> =
                list.entries.iter().map(|e| (e.name.as_str(), e.relative.as_str())).collect();
            assert_eq!(found, vec![("a", ""), ("b", "c")]);
        }
        _ => panic!("the walk goes on"),
    }
}

#[test]
fn members_with_other_targets_are_kept_apart() {
    let mut list = MemberList::empty();
    list.insert("a".to_string(), TargetKind::Luau, "x".to_string());
    list.insert("a".to_string(), TargetKind::Lune, "y".to_string());
    list.insert("a".to_string(), TargetKind::Luau, "z".to_string());
    let found: Vec<_> = list.entries.iter().map(|e| (e.kind, e.relative.as_str())).collect();
    assert_eq!(found, vec![(TargetKind::Luau, "z"), (TargetKind::Lune, "y")]);
}

#[test]
fn walk_stops_at_errors() {
    let root = project(None);
    let done = |out: pesde::cli::members::WalkStep| match out.action {
        WalkAction::Done(Err(e)) => e.message,
        _ => panic!("no error"),
    };
    let e = WalkEvent::Listed(Err(Failure::of("list")));
    assert_eq!(done(step_members(&root, WalkState::AwaitListing, e)), "list");
    let s = WalkState::AwaitMember(MemberList::empty());
    let e = WalkEvent::Member(Some(Err(Failure::of("member"))));
    assert_eq!(done(step_members(&root, s, e)), "member");
    let s = WalkState::AwaitMember(MemberList::empty());
    let out = step_members(&root, s, member("./b", "b", TargetKind::Luau));
    assert!(matches!(out.action, WalkAction::Run(_)));
    let e = WalkEvent::Ran(Err(Failure::of("run")));
    assert_eq!(done(step_members(&root, out.state, e)), "run");
}

// Errors.

#[test]
fn errors_are_displayed() {
    let e = Failure::of("no such file").context("failed to read");
    let lines = display_err(Err(e), " occurred", Backtrace::Disabled);
    let shown: Vec<String> =
        lines.iter().map(|l| format!("{}{}{}", l.before, l.marked, l.after)).collect();
    assert_eq!(
        shown,
        vec![
            "error occurred: failed to read\n",
            "caused by:",
            "\t- no such file",
            "\nhelp: set RUST_BACKTRACE=1 for a backtrace",
        ]
    );
    let marks: Vec<Mark> = lines.iter().map(|l| l.mark).collect();
    assert_eq!(marks, vec![Mark::Error, Mark::Error, Mark::Plain, Mark::Info]);
}

#[test]
fn errors_are_displayed_with_their_backtrace() {
    let last = |b: Backtrace| {
        let mut lines = display_err(Err(Failure::of("x")), "", b);
        assert_eq!(lines.len(), 2);
        let l = lines.pop().unwrap();
        assert_eq!(l.mark, Mark::Warning);
        format!("{}{}{}", l.before, l.marked, l.after)
    };
    assert_eq!(last(Backtrace::Captured("at".to_string())), "\nbacktrace:\nat");
    assert_eq!(last(Backtrace::Unsupported), "\nbacktrace: not captured");
    assert!(display_err(Ok(()), "", Backtrace::Disabled).is_empty());
}

// Indices.

#[test]
fn index_is_found() {
    let conf = || Ok(url("https://example.com/default"));
    let text = |r: Option<Result<GitUrl, Failure>>| r.unwrap().unwrap().text;
    assert_eq!(
        text(get_index(Ok(None), Some("https://example.com/x"), conf())),
        "https://example.com/x"
    );
    assert_eq!(text(get_index(Ok(Some(manifest())), None, conf())), "https://example.com/index");
    assert_eq!(text(get_index(Ok(None), None, conf())), "https://example.com/default");
}

#[test]
fn index_errors_are_told() {
    let conf = || Err(Failure::of("config"));
    let error = |r: Option<Result<GitUrl, Failure>>| r.unwrap().unwrap_err().message;
    assert_eq!(error(get_index(Err(Failure::of("manifest")), None, conf())), "manifest");
    assert_eq!(error(get_index(Ok(None), None, conf())), "config");
    let mut m = manifest();
    m.indices.clear();
    assert_eq!(
        error(get_index(Ok(Some(m)), None, conf())),
        "index default not found in manifest"
    );
    assert_eq!(
        error(get_index(Ok(Some(manifest())), Some("https://["), conf())),
        "index https://[ not found in manifest"
    );
    assert!(get_index(Ok(None), Some("https://["), conf()).is_none());
}

#[test]
fn index_is_looked_up_by_name() {
    let conf = || Err(Failure::of("config"));
    let r = pick_index(Some(manifest()), Some("other"), None, conf());
    assert_eq!(r.unwrap().text, "https://example.com/other");
    let r = pick_index(Some(manifest()), Some("none"), None, conf());
    assert_eq!(r.unwrap_err().message, "index none not found in manifest");
}

#[test]
fn sections_are_named() {
    assert_eq!(dep_type_to_key(DependencyType::Standard), "dependencies");
    assert_eq!(dep_type_to_key(DependencyType::Dev), "dev_dependencies");
    assert_eq!(dep_type_to_key(DependencyType::Peer), "peer_dependencies");
}
