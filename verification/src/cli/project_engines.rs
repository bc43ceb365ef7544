//! Finding the engines of a project, one engine at a time.

use super::engines::{get_executable_version, is_answer, printed_version, Answer, Asked};
use crate::engine::{EngineKind, EngineReqs, Engines};
use crate::failure::{caused, Failure};
use crate::project::Manifest;
use crate::search;
use crate::text;
use crate::version::{precedence, Precedence, Version, VersionParts, VersionReq};
use vstd::prelude::*;

verus! {

/// Where the search for an engine stands.
#[derive(Debug)]
pub enum EngineState {
    AwaitInstalled,
    AwaitAnswer,
    AwaitEngine,
    AwaitLinker(Version),
    Finished,
}

/// What is to be done next.
#[derive(Debug)]
pub enum EngineAction {
    /// List the versions that are installed.
    FindInstalled,
    /// Run the engine to ask for its version.
    AskVersion,
    /// Find a version that meets the requirement, and install it if it is not.
    GetOrDownload(VersionReq),
    /// Put a program in place that starts the right version.
    MakeLinker,
    Done(Result<Option<Version>, Failure>),
}

/// What came of the work.
#[derive(Debug)]
pub enum EngineEvent {
    /// The installed versions, in ascending order.
    Installed(Result<Vec<Version>, Failure>),
    Asked(Asked),
    Obtained(Result<Version, Failure>),
    Linked(Result<(), Failure>),
}

/// The outcome of a step.
#[derive(Debug)]
pub struct EngineStep {
    pub state: EngineState,
    pub logged: Option<String>,
    pub action: EngineAction,
}

fn go(state: EngineState, action: EngineAction) -> (out: EngineStep)
    ensures
        out == (EngineStep { state, logged: None, action }),
{
    EngineStep { state, logged: None, action }
}

fn done(r: Result<Option<Version>, Failure>) -> (out: EngineStep)
    ensures
        finds(out, r),
{
    go(EngineState::Finished, EngineAction::Done(r))
}

/// The step ends the search with that result.
pub open spec fn finds(out: EngineStep, r: Result<Option<Version>, Failure>) -> bool {
    out == (EngineStep {
        state: EngineState::Finished,
        logged: None,
        action: EngineAction::Done(r),
    })
}

/// The step ends the search with that error.
pub open spec fn gives_up(out: EngineStep, e: Seq<Seq<char>>) -> bool {
    &&& out.logged is None
    &&& out.state == EngineState::Finished
    &&& out.action matches EngineAction::Done(Err(f))
    &&& f@ == e
}

/// The first step: an engine that the manifest asks for is installed, and any
/// other is looked for.
pub open spec fn is_first_step(req: Option<VersionReq>, out: EngineStep) -> bool {
    match req {
        None => out == (EngineStep {
            state: EngineState::AwaitInstalled,
            logged: None,
            action: EngineAction::FindInstalled,
        }),
        Some(req) => {
            &&& out.logged is None
            &&& out.state == EngineState::AwaitEngine
            &&& out.action matches EngineAction::GetOrDownload(q)
            &&& q@ == req@
        },
    }
}

/// Starts the search for an engine.
pub fn find_engine(engine: EngineKind, reqs: &EngineReqs) -> (out: EngineStep)
    ensures
        is_first_step(reqs.of(engine), out),
{
    let req = match engine {
        EngineKind::Pesde => &reqs.pesde,
        EngineKind::Lune => &reqs.lune,
    };
    match req {
        None => go(EngineState::AwaitInstalled, EngineAction::FindInstalled),
        Some(req) => go(
            EngineState::AwaitEngine,
            EngineAction::GetOrDownload(VersionReq { text: req.text.clone() }),
        ),
    }
}

/// Starts the search for an engine where no versions are managed: it is run as it is
/// found, whatever the manifest asks for.
pub fn ask_engine() -> (out: EngineStep)
    ensures
        out == (EngineStep {
            state: EngineState::AwaitAnswer,
            logged: None,
            action: EngineAction::AskVersion,
        }),
{
    go(EngineState::AwaitAnswer, EngineAction::AskVersion)
}

/// Whether the event is one that the state waits for.
pub open spec fn awaits_engine(s: EngineState, e: EngineEvent) -> bool {
    match (s, e) {
        (EngineState::AwaitInstalled, EngineEvent::Installed(_)) => true,
        (EngineState::AwaitAnswer, EngineEvent::Asked(_)) => true,
        (EngineState::AwaitEngine, EngineEvent::Obtained(_)) => true,
        (EngineState::AwaitLinker(_), EngineEvent::Linked(_)) => true,
        _ => false,
    }
}

/// What comes of the event in that state.
pub open spec fn is_engine_step(
    engine: EngineKind,
    s: EngineState,
    e: EngineEvent,
    out: EngineStep,
) -> bool {
    match (s, e) {
        (EngineState::AwaitInstalled, EngineEvent::Installed(r)) => match r {
            Err(cause) => finds(out, Err(cause)),
            Ok(versions) => if versions@.len() == 0 {
                out == (EngineStep {
                    state: EngineState::AwaitAnswer,
                    logged: None,
                    action: EngineAction::AskVersion,
                })
            } else {
                finds(out, Ok(Some(versions@.last())))
            },
        },
        (EngineState::AwaitAnswer, EngineEvent::Asked(asked)) => {
            &&& out.state == EngineState::Finished
            &&& out.action matches EngineAction::Done(version)
            &&& is_answer(
                engine,
                asked,
                match asked {
                    Asked::Printed(output) => printed_version(engine, output@),
                    _ => Err(Seq::empty()),
                },
                Answer { version, logged: out.logged },
            )
        },
        (EngineState::AwaitEngine, EngineEvent::Obtained(r)) => match r {
            Err(cause) => gives_up(out, caused("failed to install engine"@, cause@)),
            Ok(version) => out == (EngineStep {
                state: EngineState::AwaitLinker(version),
                logged: None,
                action: EngineAction::MakeLinker,
            }),
        },
        (EngineState::AwaitLinker(version), EngineEvent::Linked(r)) => match r {
            Err(cause) => gives_up(out, caused("failed to make engine linker"@, cause@)),
            Ok(_) => finds(out, Ok(Some(version))),
        },
        _ => false,
    }
}

/// The next step of the search for an engine.
pub fn step_engine(engine: EngineKind, state: EngineState, event: EngineEvent) -> (out: EngineStep)
    requires
        awaits_engine(state, event),
    ensures
        is_engine_step(engine, state, event, out),
{
    match (state, event) {
        (EngineState::AwaitInstalled, EngineEvent::Installed(r)) => match r {
            Err(cause) => done(Err(cause)),
            Ok(mut versions) => match versions.pop() {
                None => go(EngineState::AwaitAnswer, EngineAction::AskVersion),
                Some(last) => done(Ok(Some(last))),
            },
        },
        (EngineState::AwaitAnswer, EngineEvent::Asked(asked)) => {
            let answer = get_executable_version(engine, asked);
            EngineStep {
                state: EngineState::Finished,
                logged: answer.logged,
                action: EngineAction::Done(answer.version),
            }
        },
        (EngineState::AwaitEngine, EngineEvent::Obtained(r)) => match r {
            Err(cause) => done(Err(cause.context("failed to install engine"))),
            Ok(version) => go(EngineState::AwaitLinker(version), EngineAction::MakeLinker),
        },
        (EngineState::AwaitLinker(version), EngineEvent::Linked(r)) => match r {
            Err(cause) => done(Err(cause.context("failed to make engine linker"))),
            Ok(_) => done(Ok(Some(version))),
        },
        _ => go(EngineState::Finished, EngineAction::AskVersion),
    }
}

/// What came of the search for an engine.
#[derive(Debug)]
pub struct Search {
    pub engine: EngineKind,
    pub found: Result<Option<Version>, Failure>,
}

/// The version of the engine that was found last.
pub open spec fn found_version(searches: Seq<Search>, kind: EngineKind) -> Option<VersionParts>
    decreases searches.len(),
{
    if searches.len() == 0 {
        None
    } else {
        let last = searches.last();
        match last.found {
            Ok(Some(v)) if last.engine == kind => Some(v@),
            _ => found_version(searches.drop_last(), kind),
        }
    }
}

/// The first search that failed, or the number of searches.
pub open spec fn first_failed(searches: Seq<Search>) -> int {
    search::first_index(searches.len() as int, |i: int| searches[i].found is Err)
}

/// Collects the engines of a project, given the searches in the order in which
/// they ended. The first that failed decides.
pub fn get_project_engines(searches: &Vec<Search>) -> (r: Result<Engines, Failure>)
    ensures
        match r {
            Ok(engines) => {
                &&& first_failed(searches@) == searches@.len()
                &&& forall|kind: EngineKind| #[trigger]
                    (engines@)(kind) == found_version(searches@, kind)
            },
            Err(e) => {
                &&& first_failed(searches@) < searches@.len()
                &&& searches@[first_failed(searches@)].found matches Err(f)
                &&& e@ == f@
            },
        },
{
    let mut engines = Engines::none();
    let mut i: usize = 0;
    let ghost failed = |i: int| searches@[i].found is Err;
    while i < searches.len()
        invariant
            i <= searches.len(),
            failed == (|i: int| searches@[i].found is Err),
            forall|j: int| 0 <= j < i ==> !(#[trigger] failed(j)),
            forall|kind: EngineKind| #[trigger]
                (engines@)(kind) == found_version(searches@.take(i as int), kind),
        decreases searches.len() - i,
    {
        assert(searches@.take(i + 1).drop_last() =~= searches@.take(i as int));
        assert(searches@.take(i + 1).last() == searches@[i as int]);
        match &searches[i].found {
            Err(e) => {
                proof {
                    search::lemma_first_index(searches@.len() as int, failed, i as int);
                }
                return Err(e.copy());
            },
            Ok(None) => {},
            Ok(Some(version)) => {
                engines.insert(searches[i].engine, version.copy());
            },
        }
        assert(!failed(i as int));
        i = i + 1;
    }
    assert(searches@.take(i as int) =~= searches@);
    proof {
        search::lemma_first_index(searches@.len() as int, failed, i as int);
    }
    Ok(engines)
}

/// What stands before the progress of the search.
pub fn progress_prefix(manifest: &Manifest) -> (r: String)
    ensures
        r@ == manifest.name@ + " "@ + manifest.target.shown@ + ": "@,
{
    text::cat4(manifest.name.as_str(), " ", manifest.target.shown.as_str(), ": ")
}

// What holds of every search.

/// How many steps are left at most.
pub open spec fn steps_left(s: EngineState) -> nat {
    match s {
        EngineState::AwaitInstalled => 2,
        EngineState::AwaitAnswer => 1,
        EngineState::AwaitEngine => 2,
        EngineState::AwaitLinker(_) => 1,
        EngineState::Finished => 0,
    }
}

/// A search ends, and it ends with a result.
pub proof fn search_ends(engine: EngineKind, s: EngineState, e: EngineEvent, out: EngineStep)
    requires
        awaits_engine(s, e),
        is_engine_step(engine, s, e, out),
    ensures
        steps_left(out.state) < steps_left(s),
        out.state == EngineState::Finished <==> out.action is Done,
{
}

/// Whether the event is what the action asks for.
pub open spec fn answers(a: EngineAction, e: EngineEvent) -> bool {
    match a {
        EngineAction::FindInstalled => e is Installed,
        EngineAction::AskVersion => e is Asked,
        EngineAction::GetOrDownload(_) => e is Obtained,
        EngineAction::MakeLinker => e is Linked,
        EngineAction::Done(_) => false,
    }
}

/// Whoever does what a step asks for, and answers with what came of it, can take
/// the next step.
pub proof fn answers_are_awaited(
    engine: EngineKind,
    s: EngineState,
    e: EngineEvent,
    out: EngineStep,
    next: EngineEvent,
)
    requires
        awaits_engine(s, e),
        is_engine_step(engine, s, e, out),
        answers(out.action, next),
    ensures
        awaits_engine(out.state, next),
{
}

/// An engine that the manifest asks for is never looked for elsewhere: it is
/// found only once it was installed and its linker is in place.
pub proof fn required_engines_are_installed(
    engine: EngineKind,
    req: VersionReq,
    first: EngineStep,
    e: EngineEvent,
    out: EngineStep,
)
    requires
        is_first_step(Some(req), first),
        awaits_engine(first.state, e),
        is_engine_step(engine, first.state, e, out),
    ensures
        match out.state {
            EngineState::AwaitLinker(version) => e == EngineEvent::Obtained(
                Ok::<Version, Failure>(version),
            ),
            _ => out.action matches EngineAction::Done(Err(_)),
        },
{
}

/// Each version is lower than the next ones.
pub open spec fn ascend(versions: Seq<Version>) -> bool {
    forall|i: int, j: int|
        0 <= i < j < versions.len() ==> precedence(
            (#[trigger] versions[i])@,
            (#[trigger] versions[j])@,
        ) == Precedence::Lower
}

/// Of the installed versions of an engine that the manifest does not ask for, the
/// highest is used.
pub proof fn highest_installed_version_is_used(
    engine: EngineKind,
    versions: Vec<Version>,
    out: EngineStep,
    i: int,
)
    requires
        ascend(versions@),
        0 <= i < versions@.len(),
        is_engine_step(
            engine,
            EngineState::AwaitInstalled,
            EngineEvent::Installed(Ok(versions)),
            out,
        ),
    ensures
        out.action matches EngineAction::Done(Ok(Some(found))) && (found == versions@[i]
            || precedence(versions@[i]@, found@) == Precedence::Lower),
{
}

/// Where no versions are managed, an engine is asked for its version, and what it
/// answers is all that counts.
pub proof fn unmanaged_engines_are_asked(
    engine: EngineKind,
    first: EngineStep,
    e: EngineEvent,
    out: EngineStep,
)
    requires
        first == (EngineStep {
            state: EngineState::AwaitAnswer,
            logged: None,
            action: EngineAction::AskVersion,
        }),
        awaits_engine(first.state, e),
        is_engine_step(engine, first.state, e, out),
    ensures
        e matches EngineEvent::Asked(asked) && (out.action matches EngineAction::Done(version)
            && is_answer(
            engine,
            asked,
            match asked {
                Asked::Printed(output) => printed_version(engine, output@),
                _ => Err(Seq::empty()),
            },
            Answer { version, logged: out.logged },
        )),
{
}

/// The engines of a project do not depend on the order in which the searches
/// ended, if there was one for each engine and none failed.
pub proof fn order_of_searches_is_irrelevant(a: Search, b: Search, kind: EngineKind)
    requires
        a.engine != b.engine,
        a.found is Ok,
        b.found is Ok,
    ensures
        found_version(seq![a, b], kind) == found_version(seq![b, a], kind),
{
    reveal_with_fuel(found_version, 3);
    assert(seq![a, b].drop_last() =~= seq![a]);
    assert(seq![b, a].drop_last() =~= seq![b]);
    assert(seq![a].drop_last() =~= Seq::empty());
    assert(seq![b].drop_last() =~= Seq::empty());
}

/// Each engine has the requirement that the manifest has for it, and none if it has none.
pub proof fn engines_have_their_own_requirements(reqs: EngineReqs)
    ensures
        reqs.of(EngineKind::Pesde) == reqs.pesde,
        reqs.of(EngineKind::Lune) == reqs.lune,
{
}

/// The search for an engine starts with the requirement that the manifest has for it, if it
/// has one, and else with the versions that are installed.
pub proof fn required_versions_are_obtained(req: Option<VersionReq>, out: EngineStep)
    requires
        is_first_step(req, out),
    ensures
        req matches Some(r) ==> (out.action matches EngineAction::GetOrDownload(q) && q.text@
            == r.text@),
        req is None ==> out.action == EngineAction::FindInstalled,
        out.logged is None,
{
}

/// What comes of the search for an engine: the last of the installed versions is used, and
/// the engine is run only if none is installed; a version that was obtained is used once its
/// linker is in place. Errors end the search.
pub proof fn found_versions_are_used(
    engine: EngineKind,
    s: EngineState,
    e: EngineEvent,
    out: EngineStep,
)
    requires
        awaits_engine(s, e),
        is_engine_step(engine, s, e, out),
    ensures
        e matches EngineEvent::Installed(Ok(versions)) ==> if versions@.len() > 0 {
            out.action == EngineAction::Done(
                Ok::<Option<Version>, Failure>(Some(versions@[versions@.len() - 1])),
            )
        } else {
            out.action == EngineAction::AskVersion && out.state == EngineState::AwaitAnswer
        },
        e matches EngineEvent::Installed(Err(f)) ==> out.action == EngineAction::Done(
            Err::<Option<Version>, Failure>(f),
        ),
        e matches EngineEvent::Obtained(Ok(v)) ==> out.action == EngineAction::MakeLinker
            && out.state == EngineState::AwaitLinker(v),
        e matches EngineEvent::Obtained(Err(f)) ==> (out.action matches EngineAction::Done(Err(g))
            && g@ == seq!["failed to install engine"@] + f@),
        (e matches EngineEvent::Linked(Ok(_))) ==> (s matches EngineState::AwaitLinker(v)
            && out.action == EngineAction::Done(Ok::<Option<Version>, Failure>(Some(v)))),
        e matches EngineEvent::Linked(Err(f)) ==> (out.action matches EngineAction::Done(Err(g))
            && g@ == seq!["failed to make engine linker"@] + f@),
{
}

/// An engine has the version of the last search for it that found one, whatever the searches
/// for other engines found; and none if no search for it found one.
pub proof fn engines_are_collected(searches: Seq<Search>, kind: EngineKind)
    ensures
        match found_version(searches, kind) {
            Some(v) => exists|i: int|
                {
                    &&& 0 <= i < searches.len()
                    &&& (#[trigger] searches[i]).engine == kind
                    &&& searches[i].found matches Ok(Some(x))
                    &&& x@ == v
                    &&& forall|j: int|
                        i < j < searches.len() ==> !((#[trigger] searches[j]).engine == kind
                            && searches[j].found matches Ok(Some(_)))
                },
            None => forall|j: int|
                0 <= j < searches.len() ==> !((#[trigger] searches[j]).engine == kind
                    && searches[j].found matches Ok(Some(_))),
        },
    decreases searches.len(),
{
    if searches.len() > 0 {
        let rest = searches.drop_last();
        let n = searches.len() - 1;
        engines_are_collected(rest, kind);
        assert forall|j: int| 0 <= j < n implies #[trigger] searches[j] == rest[j] by {}
        if searches[n].engine == kind && (searches[n].found matches Ok(Some(_))) {
            assert(found_version(searches, kind) is Some);
        } else {
            assert(found_version(searches, kind) == found_version(rest, kind));
            if let Some(v) = found_version(rest, kind) {
                let i = choose|i: int|
                    {
                        &&& 0 <= i < rest.len()
                        &&& (#[trigger] rest[i]).engine == kind
                        &&& rest[i].found matches Ok(Some(x))
                        &&& x@ == v
                        &&& forall|j: int|
                            i < j < rest.len() ==> !((#[trigger] rest[j]).engine == kind
                                && rest[j].found matches Ok(Some(_)))
                    };
                assert(searches[i] == rest[i]);
                assert forall|j: int| i < j < searches.len() implies !((
                #[trigger] searches[j]).engine == kind && searches[j].found matches Ok(Some(_))) by {
                    if j < n {
                        assert(searches[j] == rest[j]);
                    }
                }
            } else {
                assert forall|j: int| 0 <= j < searches.len() implies !((
                #[trigger] searches[j]).engine == kind && searches[j].found matches Ok(Some(_))) by {
                    if j < n {
                        assert(searches[j] == rest[j]);
                    }
                }
            }
        }
    }
}

/// The error of the first search that failed is told, and the engines of a project are found
/// if and only if no search failed.
pub proof fn first_failure_is_told(searches: Seq<Search>, i: int)
    requires
        0 <= i <= searches.len(),
        forall|j: int| 0 <= j < i ==> (#[trigger] searches[j]).found is Ok,
        i < searches.len() ==> searches[i].found is Err,
    ensures
        first_failed(searches) == i,
{
    let failed = |i: int| searches[i].found is Err;
    assert forall|j: int| 0 <= j < i implies !(#[trigger] failed(j)) by {
        let one = searches[j];
    }
    search::lemma_first_index(searches.len() as int, failed, i);
}

} // verus!
