//! Engines and runtimes.

use pesde::cli::engines::{compatible_runtime, exit_code, get_executable_version, Asked};
use pesde::cli::project_engines::{
    ask_engine, find_engine, get_project_engines, step_engine, EngineAction, EngineEvent, EngineState,
    EngineStep, Search,
};
use pesde::engine::{EngineKind, EngineReqs, Engines, RuntimeKind};
use pesde::failure::Failure;
use pesde::project::TargetKind;
use pesde::version::{read_version, Version, VersionReq};

fn version(s: &str) -> Version {
    read_version(s).unwrap()
}

fn with_lune() -> Engines {
    Engines { pesde: Some(version("0.7.0")), lune: Some(version("0.9.2")) }
}

#[test]
fn runtimes_are_picked() {
    for target in [TargetKind::Lune, TargetKind::Luau] {
        let r = compatible_runtime(target, &with_lune()).unwrap();
        assert_eq!(r.kind, RuntimeKind::Lune);
        assert_eq!(r.version.to_text(), "0.9.2");
    }
}

#[test]
fn runtimes_can_be_missing() {
    let none = Engines { pesde: Some(version("0.7.0")), lune: None };
    let error = |t: TargetKind, e: &Engines| compatible_runtime(t, e).unwrap_err().message;
    assert_eq!(error(TargetKind::Lune, &none), "lune not available!");
    assert_eq!(error(TargetKind::Luau, &none), "no runtime available");
    assert_eq!(error(TargetKind::Roblox, &with_lune()), "roblox targets cannot be ran!");
    assert_eq!(error(TargetKind::RobloxServer, &with_lune()), "roblox targets cannot be ran!");
}

#[test]
fn exit_codes_default_to_one() {
    assert_eq!(exit_code(Some(0)), 0);
    assert_eq!(exit_code(Some(-3)), -3);
    assert_eq!(exit_code(None), 1);
}

fn printed(s: &[u8]) -> pesde::cli::engines::Answer {
    get_executable_version(EngineKind::Lune, Asked::Printed(s.to_vec()))
}

#[test]
fn versions_are_found_in_what_engines_print() {
    let a = printed(b"lune 0.9.2\n");
    assert!(a.logged.is_none());
    assert_eq!(a.version.unwrap().unwrap().to_text(), "0.9.2");
    let a = printed(b"lune  v1.0.0-rc.1 \r\n");
    assert_eq!(a.version.unwrap().unwrap().to_text(), "1.0.0-rc.1");
}

#[test]
fn unreadable_versions_are_logged() {
    let a = printed(b"lune");
    assert!(a.version.unwrap().is_none());
    assert_eq!(
        a.logged.unwrap(),
        "failed to extract lune version:\nfailed to split lune version output"
    );
    let a = printed(b"lune x");
    assert!(a.version.unwrap().is_none());
    assert_eq!(
        a.logged.unwrap(),
        "failed to extract lune version:\nfailed to parse lune version\n\t- unexpected character \
         'x' while parsing major version number"
    );
    let a = printed(b"lune \xff");
    assert!(a.version.unwrap().is_none());
    assert_eq!(
        a.logged.unwrap(),
        "failed to extract lune version:\nfailed to parse lune version output\n\t- invalid utf-8 \
         sequence of 1 bytes from index 5"
    );
}

#[test]
fn engines_may_not_be_there() {
    let a = get_executable_version(EngineKind::Lune, Asked::NotFound);
    assert!(a.version.unwrap().is_none() && a.logged.is_none());
    let a = get_executable_version(EngineKind::Pesde, Asked::Failed(Failure::of("denied")));
    let e = a.version.unwrap_err();
    assert_eq!(e.message, "failed to execute pesde");
    assert_eq!(e.causes, vec!["denied".to_string()]);
}

fn no_reqs() -> EngineReqs {
    EngineReqs { pesde: None, lune: None }
}

fn found(out: EngineStep) -> Result<Option<Version>, Failure> {
    match out.action {
        EngineAction::Done(r) => r,
        _ => panic!("the search goes on"),
    }
}

#[test]
fn installed_engines_are_used() {
    let out = find_engine(EngineKind::Lune, &no_reqs());
    assert!(matches!(out.action, EngineAction::FindInstalled));
    let listed = vec![version("0.8.0"), version("0.9.0")];
    let out = step_engine(EngineKind::Lune, out.state, EngineEvent::Installed(Ok(listed)));
    assert_eq!(found(out).unwrap().unwrap().to_text(), "0.9.0");
}

#[test]
fn engines_are_asked_if_none_is_installed() {
    let out = find_engine(EngineKind::Lune, &no_reqs());
    let out = step_engine(EngineKind::Lune, out.state, EngineEvent::Installed(Ok(Vec::new())));
    assert!(matches!(out.action, EngineAction::AskVersion));
    let asked = EngineEvent::Asked(Asked::Printed(b"lune 0.1.0".to_vec()));
    let out = step_engine(EngineKind::Lune, out.state, asked);
    assert_eq!(found(out).unwrap().unwrap().to_text(), "0.1.0");
    let asked = EngineEvent::Asked(Asked::Printed(b"?".to_vec()));
    let out = step_engine(EngineKind::Lune, EngineState::AwaitAnswer, asked);
    assert!(out.logged.is_some());
    assert!(found(out).unwrap().is_none());
}

#[test]
fn required_engines_are_obtained() {
    let reqs = EngineReqs { pesde: None, lune: Some(VersionReq { text: "^0.9".to_string() }) };
    let out = find_engine(EngineKind::Lune, &reqs);
    assert!(matches!(out.action, EngineAction::GetOrDownload(q) if q.text == "^0.9"));
    let out = step_engine(EngineKind::Lune, out.state, EngineEvent::Obtained(Ok(version("0.9.1"))));
    assert!(matches!(out.action, EngineAction::MakeLinker));
    let out = step_engine(EngineKind::Lune, out.state, EngineEvent::Linked(Ok(())));
    assert_eq!(found(out).unwrap().unwrap().to_text(), "0.9.1");
    let out = find_engine(EngineKind::Pesde, &reqs);
    assert!(matches!(out.action, EngineAction::FindInstalled));
}

#[test]
fn engine_searches_fail() {
    let fail = |s: EngineState, e: EngineEvent| found(step_engine(EngineKind::Lune, s, e));
    let e = fail(EngineState::AwaitInstalled, EngineEvent::Installed(Err(Failure::of("x"))));
    assert_eq!(e.unwrap_err().message, "x");
    let e = fail(EngineState::AwaitEngine, EngineEvent::Obtained(Err(Failure::of("x"))));
    assert_eq!(e.unwrap_err().message, "failed to install engine");
    let s = EngineState::AwaitLinker(version("1.0.0"));
    let e = fail(s, EngineEvent::Linked(Err(Failure::of("x")))).unwrap_err();
    assert_eq!(e.message, "failed to make engine linker");
    assert_eq!(e.causes, vec!["x".to_string()]);
}

#[test]
fn engines_are_collected() {
    let pesde = || Search { engine: EngineKind::Pesde, found: Ok(None) };
    let lune = || Search { engine: EngineKind::Lune, found: Ok(Some(version("0.9.0"))) };
    for searches in [vec![pesde(), lune()], vec![lune(), pesde()]] {
        let e = get_project_engines(&searches).unwrap();
        assert!(e.get(EngineKind::Pesde).is_none());
        assert_eq!(e.get(EngineKind::Lune).unwrap().to_text(), "0.9.0");
    }
}

#[test]
fn first_failed_search_decides() {
    let failed = |engine: EngineKind, m: &str| Search { engine, found: Err(Failure::of(m)) };
    let searches = vec![
        Search { engine: EngineKind::Lune, found: Ok(None) },
        failed(EngineKind::Pesde, "first"),
        failed(EngineKind::Lune, "second"),
    ];
    assert_eq!(get_project_engines(&searches).unwrap_err().message, "first");
}

#[test]
fn unmanaged_engines_are_asked() {
    let out = ask_engine();
    assert!(out.logged.is_none());
    assert!(matches!(out.action, EngineAction::AskVersion));
    assert!(matches!(out.state, EngineState::AwaitAnswer));
    let e = EngineEvent::Asked(Asked::Printed(b"lune 0.8.9".to_vec()));
    match step_engine(EngineKind::Lune, out.state, e).action {
        EngineAction::Done(Ok(Some(v))) => assert_eq!(v.to_text(), "0.8.9"),
        _ => panic!("no version"),
    }
    let e = EngineEvent::Asked(Asked::NotFound);
    let out = step_engine(EngineKind::Pesde, ask_engine().state, e);
    assert!(matches!(out.action, EngineAction::Done(Ok(None))));
}

#[test]
fn all_engines_are_searched_for() {
    assert_eq!(EngineKind::variants(), vec![EngineKind::Pesde, EngineKind::Lune]);
}
