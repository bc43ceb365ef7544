//! Upgrading the program itself.

use crate::failure::{plain, Failure};
use crate::text;
use crate::version::{
    no_build_metadata, order_versions, parse_requirement, parsed_requirement, plainly_lower,
    precedence, valid_version, version_text, without_build, Precedence, Version, VersionParts,
    VersionReq,
};
use vstd::prelude::*;

verus! {

/// Upgrades the program itself.
#[derive(Debug)]
pub struct SelfUpgradeCommand {
    /// Whether to use the version from the "upgrades available" message.
    pub use_cached: bool,
    /// Whether to include pre-releases.
    pub include_pre: bool,
}

/// Where an upgrade stands.
#[derive(Debug)]
pub enum UpgradeState {
    AwaitCached,
    AwaitLatest,
    /// To this version.
    AwaitConfirm(Version),
    AwaitEngine(Version),
    AwaitReplaced(Version),
    Finished,
}

/// What is to be done next.
#[derive(Debug)]
pub enum UpgradeAction {
    /// Read which version was found last.
    ReadCached,
    FindLatest { include_pre: bool },
    /// Ask whether to upgrade to this version.
    Confirm(String),
    /// Install this version.
    GetOrDownload(VersionReq),
    /// Replace the program by the one at this path.
    Replace(String),
    Done(Result<(), Failure>),
}

/// What came of the work.
#[derive(Debug)]
pub enum UpgradeEvent {
    /// The version that was found last, if there is one.
    Cached(Result<Option<Version>, Failure>),
    Latest(Result<Version, Failure>),
    Confirmed(Result<bool, Failure>),
    /// Where the version is installed.
    Installed(Result<String, Failure>),
    Replaced(Result<(), Failure>),
}

/// Something that is said to the user.
#[derive(Debug)]
pub enum UpgradeNotice {
    UpToDate,
    Cancelled,
    Upgraded { version: String },
}

/// What a notice says.
pub open spec fn notice_text(n: UpgradeNotice) -> Seq<char> {
    match n {
        UpgradeNotice::UpToDate => "already up to date"@,
        UpgradeNotice::Cancelled => "cancelled upgrade"@,
        UpgradeNotice::Upgraded { version } => "upgraded to version "@ + version@ + "!"@,
    }
}

impl UpgradeNotice {
    /// What the notice says.
    pub fn message(&self) -> (r: String)
        ensures
            r@ == notice_text(*self),
    {
        match self {
            UpgradeNotice::UpToDate => "already up to date".to_owned(),
            UpgradeNotice::Cancelled => "cancelled upgrade".to_owned(),
            UpgradeNotice::Upgraded { version } => text::cat3(
                "upgraded to version ",
                version.as_str(),
                "!",
            ),
        }
    }
}

/// The question whether to upgrade the program of that name.
pub fn upgrade_question(program: &str, from: &str, to: &str) -> (r: String)
    ensures
        r@ == "are you sure you want to upgrade "@ + program@ + " from "@ + from@ + " to "@ + to@
            + "?"@,
{
    let mut r = text::cat5("are you sure you want to upgrade ", program, " from ", from, " to ");
    r.append(to);
    r.append("?");
    r
}

/// The outcome of a step.
#[derive(Debug)]
pub struct UpgradeStep {
    pub state: UpgradeState,
    pub said: Option<UpgradeNotice>,
    pub action: UpgradeAction,
}

/// The step leads to that state and action.
pub open spec fn goes(out: UpgradeStep, state: UpgradeState, action: UpgradeAction) -> bool {
    out == (UpgradeStep { state, said: None, action })
}

/// The step ends the upgrade with those words and that result.
pub open spec fn ends(
    out: UpgradeStep,
    said: Option<UpgradeNotice>,
    r: Result<(), Failure>,
) -> bool {
    out == (UpgradeStep { state: UpgradeState::Finished, said, action: UpgradeAction::Done(r) })
}

fn end(said: Option<UpgradeNotice>, r: Result<(), Failure>) -> (out: UpgradeStep)
    ensures
        ends(out, said, r),
{
    UpgradeStep { state: UpgradeState::Finished, said, action: UpgradeAction::Done(r) }
}

/// Whether the first version, without its build metadata, is newer than the
/// second.
pub open spec fn is_newer(latest: VersionParts, current: VersionParts) -> bool {
    precedence(without_build(latest), current) == Precedence::Higher
}

/// The step once the latest version is known.
pub open spec fn after_latest(current: Version, latest: Version, out: UpgradeStep) -> bool {
    &&& plainly_lower(current@, latest@) ==> is_newer(latest@, current@)
    &&& plainly_lower(latest@, current@) ==> !is_newer(latest@, current@)
    &&& if !is_newer(latest@, current@) {
        ends(out, Some(UpgradeNotice::UpToDate), Ok(()))
    } else {
        &&& out.said is None
        &&& out.state == UpgradeState::AwaitConfirm(latest)
        &&& out.action matches UpgradeAction::Confirm(shown)
        &&& shown@ == version_text(without_build(latest@))
    }
}

fn on_latest(current: &Version, latest: Version) -> (out: UpgradeStep)
    requires
        valid_version(current@),
        valid_version(latest@),
    ensures
        after_latest(*current, latest, out),
{
    let short = no_build_metadata(&latest);
    match order_versions(&short, current) {
        Precedence::Higher => UpgradeStep {
            state: UpgradeState::AwaitConfirm(latest),
            said: None,
            action: UpgradeAction::Confirm(short.to_text()),
        },
        _ => end(Some(UpgradeNotice::UpToDate), Ok(())),
    }
}

/// The version that a state or an event is about keeps to the grammar of
/// semantic versions.
pub open spec fn well_formed(s: UpgradeState) -> bool {
    match s {
        UpgradeState::AwaitConfirm(v) => valid_version(v@),
        UpgradeState::AwaitEngine(v) => valid_version(v@),
        UpgradeState::AwaitReplaced(v) => valid_version(v@),
        _ => true,
    }
}

/// Whether the event is one that the state waits for.
pub open spec fn awaits(s: UpgradeState, e: UpgradeEvent) -> bool {
    &&& well_formed(s)
    &&& match (s, e) {
        (UpgradeState::AwaitCached, UpgradeEvent::Cached(r)) => r matches Ok(Some(v))
            ==> valid_version(v@),
        (UpgradeState::AwaitLatest, UpgradeEvent::Latest(r)) => r matches Ok(v) ==> valid_version(
            v@,
        ),
        (UpgradeState::AwaitConfirm(_), UpgradeEvent::Confirmed(_)) => true,
        (UpgradeState::AwaitEngine(_), UpgradeEvent::Installed(_)) => true,
        (UpgradeState::AwaitReplaced(_), UpgradeEvent::Replaced(_)) => true,
        _ => false,
    }
}

/// What comes of the event in that state.
pub open spec fn is_step(
    current: Version,
    s: UpgradeState,
    e: UpgradeEvent,
    out: UpgradeStep,
) -> bool {
    match (s, e) {
        (UpgradeState::AwaitCached, UpgradeEvent::Cached(r)) => match r {
            Err(e) => ends(out, None, Err(e)),
            Ok(None) => {
                &&& out.said is None
                &&& out.state == UpgradeState::Finished
                &&& out.action matches UpgradeAction::Done(Err(f))
                &&& f@ == plain("no cached version found"@)
            },
            Ok(Some(latest)) => after_latest(current, latest, out),
        },
        (UpgradeState::AwaitLatest, UpgradeEvent::Latest(r)) => match r {
            Err(e) => ends(out, None, Err(e)),
            Ok(latest) => after_latest(current, latest, out),
        },
        (UpgradeState::AwaitConfirm(latest), UpgradeEvent::Confirmed(r)) => match r {
            Err(e) => ends(out, None, Err(e)),
            Ok(false) => ends(out, Some(UpgradeNotice::Cancelled), Ok(())),
            Ok(true) => {
                &&& out.said is None
                &&& out.state == UpgradeState::AwaitEngine(latest)
                &&& out.action matches UpgradeAction::GetOrDownload(q)
                &&& parsed_requirement("="@ + version_text(latest@)) == Ok::<
                    Seq<char>,
                    Seq<char>,
                >(q@)
            },
        },
        (UpgradeState::AwaitEngine(latest), UpgradeEvent::Installed(r)) => match r {
            Err(e) => ends(out, None, Err(e)),
            Ok(path) => goes(
                out,
                UpgradeState::AwaitReplaced(latest),
                UpgradeAction::Replace(path),
            ),
        },
        (UpgradeState::AwaitReplaced(latest), UpgradeEvent::Replaced(r)) => match r {
            Err(e) => ends(out, None, Err(e)),
            Ok(_) => {
                &&& out.state == UpgradeState::Finished
                &&& out.action == UpgradeAction::Done(Ok(()))
                &&& out.said matches Some(UpgradeNotice::Upgraded { version })
                &&& version@ == version_text(without_build(latest@))
            },
        },
        _ => false,
    }
}

/// The first step: the cached version is read, or the latest is looked up.
pub open spec fn is_first_step(cmd: SelfUpgradeCommand, out: UpgradeStep) -> bool {
    if cmd.use_cached {
        goes(out, UpgradeState::AwaitCached, UpgradeAction::ReadCached)
    } else {
        goes(
            out,
            UpgradeState::AwaitLatest,
            UpgradeAction::FindLatest { include_pre: cmd.include_pre },
        )
    }
}

impl SelfUpgradeCommand {
    /// The first step of an upgrade.
    pub fn run(&self) -> (out: UpgradeStep)
        ensures
            is_first_step(*self, out),
            if self.use_cached {
                goes(out, UpgradeState::AwaitCached, UpgradeAction::ReadCached)
            } else {
                goes(
                    out,
                    UpgradeState::AwaitLatest,
                    UpgradeAction::FindLatest { include_pre: self.include_pre },
                )
            },
    {
        if self.use_cached {
            UpgradeStep {
                state: UpgradeState::AwaitCached,
                said: None,
                action: UpgradeAction::ReadCached,
            }
        } else {
            UpgradeStep {
                state: UpgradeState::AwaitLatest,
                said: None,
                action: UpgradeAction::FindLatest { include_pre: self.include_pre },
            }
        }
    }

    /// The next step of an upgrade, from the version that is running.
    pub fn step(&self, current: &Version, state: UpgradeState, event: UpgradeEvent) -> (out:
        UpgradeStep)
        requires
            valid_version(current@),
            awaits(state, event),
        ensures
            is_step(*current, state, event, out),
    {
        match (state, event) {
            (UpgradeState::AwaitCached, UpgradeEvent::Cached(r)) => match r {
                Err(e) => end(None, Err(e)),
                Ok(None) => end(None, Err(Failure::of("no cached version found"))),
                Ok(Some(latest)) => on_latest(current, latest),
            },
            (UpgradeState::AwaitLatest, UpgradeEvent::Latest(r)) => match r {
                Err(e) => end(None, Err(e)),
                Ok(latest) => on_latest(current, latest),
            },
            (UpgradeState::AwaitConfirm(latest), UpgradeEvent::Confirmed(r)) => match r {
                Err(e) => end(None, Err(e)),
                Ok(false) => end(Some(UpgradeNotice::Cancelled), Ok(())),
                Ok(true) => {
                    let exact = text::cat("=", latest.to_text().as_str());
                    let req = parse_requirement(exact.as_str()).unwrap();
                    UpgradeStep {
                        state: UpgradeState::AwaitEngine(latest),
                        said: None,
                        action: UpgradeAction::GetOrDownload(req),
                    }
                },
            },
            (UpgradeState::AwaitEngine(latest), UpgradeEvent::Installed(r)) => match r {
                Err(e) => end(None, Err(e)),
                Ok(path) => UpgradeStep {
                    state: UpgradeState::AwaitReplaced(latest),
                    said: None,
                    action: UpgradeAction::Replace(path),
                },
            },
            (UpgradeState::AwaitReplaced(latest), UpgradeEvent::Replaced(r)) => match r {
                Err(e) => end(None, Err(e)),
                Ok(_) => end(
                    Some(
                        UpgradeNotice::Upgraded { version: no_build_metadata(&latest).to_text() },
                    ),
                    Ok(()),
                ),
            },
            _ => end(None, Ok(())),
        }
    }
}

// What holds of every upgrade.

/// An upgrade from its start on.
pub open spec fn is_run(
    cmd: SelfUpgradeCommand,
    current: Version,
    states: Seq<UpgradeState>,
    events: Seq<UpgradeEvent>,
    outs: Seq<UpgradeStep>,
) -> bool {
    &&& states.len() == events.len() + 1
    &&& outs.len() == events.len()
    &&& states[0] == (if cmd.use_cached {
        UpgradeState::AwaitCached
    } else {
        UpgradeState::AwaitLatest
    })
    &&& forall|i: int|
        #![trigger events[i]]
        0 <= i < events.len() ==> {
            &&& awaits(states[i], events[i])
            &&& is_step(current, states[i], events[i], outs[i])
            &&& states[i + 1] == outs[i].state
        }
}

/// The version that an upgrade leads to.
pub open spec fn goal(s: UpgradeState) -> Option<Version> {
    match s {
        UpgradeState::AwaitConfirm(v) => Some(v),
        UpgradeState::AwaitEngine(v) => Some(v),
        UpgradeState::AwaitReplaced(v) => Some(v),
        _ => None,
    }
}

/// Whether the user agreed before the event with that index.
pub open spec fn agreed_before(events: Seq<UpgradeEvent>, k: int) -> bool {
    exists|j: int| 0 <= j < k && #[trigger] events[j] == UpgradeEvent::Confirmed(Ok(true))
}

/// The program is only ever replaced by a newer version, and only once the user
/// agreed.
pub proof fn upgrades_are_wanted(
    cmd: SelfUpgradeCommand,
    current: Version,
    states: Seq<UpgradeState>,
    events: Seq<UpgradeEvent>,
    outs: Seq<UpgradeStep>,
    k: int,
)
    requires
        is_run(cmd, current, states, events, outs),
        0 <= k <= events.len(),
    ensures
        goal(states[k]) matches Some(v) ==> is_newer(v@, current@) && !plainly_lower(
            v@,
            current@,
        ),
        states[k] is AwaitEngine || states[k] is AwaitReplaced ==> agreed_before(events, k),
        k > 0 && outs[k - 1].action is Replace ==> agreed_before(events, k),
    decreases k,
{
    if k > 0 {
        upgrades_are_wanted(cmd, current, states, events, outs, k - 1);
        let e = events[k - 1];
        assert(is_step(current, states[k - 1], e, outs[k - 1]));
        if agreed_before(events, k - 1) {
            let j = choose|j: int|
                0 <= j < k - 1 && #[trigger] events[j] == UpgradeEvent::Confirmed(Ok(true));
            assert(events[j] == UpgradeEvent::Confirmed(Ok(true)));
        }
    }
}

/// A version with higher numbers than the one that is running is offered to the user,
/// and one with lower numbers is not.
pub proof fn higher_numbers_are_offered(current: Version, latest: Version, out: UpgradeStep)
    requires
        after_latest(current, latest, out),
    ensures
        plainly_lower(current@, latest@) ==> out.state == UpgradeState::AwaitConfirm(latest)
            && out.action is Confirm,
        plainly_lower(latest@, current@) ==> ends(out, Some(UpgradeNotice::UpToDate), Ok(())),
{
}

/// Whether the event is what the action asks for; a version keeps to the grammar.
pub open spec fn answers(a: UpgradeAction, e: UpgradeEvent) -> bool {
    match a {
        UpgradeAction::ReadCached => e matches UpgradeEvent::Cached(r) && (r matches Ok(Some(v))
            ==> valid_version(v@)),
        UpgradeAction::FindLatest { .. } => e matches UpgradeEvent::Latest(r) && (r matches Ok(v)
            ==> valid_version(v@)),
        UpgradeAction::Confirm(_) => e is Confirmed,
        UpgradeAction::GetOrDownload(_) => e is Installed,
        UpgradeAction::Replace(_) => e is Replaced,
        UpgradeAction::Done(_) => false,
    }
}

/// Whoever does what a step asks for, and answers with what came of it, can take
/// the next step.
pub proof fn answers_are_awaited(
    current: Version,
    s: UpgradeState,
    e: UpgradeEvent,
    out: UpgradeStep,
    next: UpgradeEvent,
)
    requires
        awaits(s, e),
        is_step(current, s, e, out),
        answers(out.action, next),
    ensures
        awaits(out.state, next),
{
}

/// Every step keeps the version within the grammar.
pub proof fn steps_keep_well_formed(
    current: Version,
    s: UpgradeState,
    e: UpgradeEvent,
    out: UpgradeStep,
)
    requires
        awaits(s, e),
        is_step(current, s, e, out),
    ensures
        well_formed(out.state),
{
}

/// The version that was found to be the latest: the cached one if that is asked for, and
/// else the one that was looked up.
pub open spec fn found_version(cmd: SelfUpgradeCommand, e: UpgradeEvent) -> Option<Version> {
    match e {
        UpgradeEvent::Cached(Ok(Some(v))) => if cmd.use_cached {
            Some(v)
        } else {
            None
        },
        UpgradeEvent::Latest(Ok(v)) => if cmd.use_cached {
            None
        } else {
            Some(v)
        },
        _ => None,
    }
}

proof fn found_so_far(
    cmd: SelfUpgradeCommand,
    current: Version,
    states: Seq<UpgradeState>,
    events: Seq<UpgradeEvent>,
    outs: Seq<UpgradeStep>,
    k: int,
)
    requires
        is_run(cmd, current, states, events, outs),
        0 <= k <= events.len(),
    ensures
        states[k] is AwaitCached ==> k == 0 && cmd.use_cached,
        states[k] is AwaitLatest ==> k == 0 && !cmd.use_cached,
        states[k] matches UpgradeState::AwaitConfirm(v) ==> k == 1 && found_version(cmd, events[0])
            == Some(v),
        states[k] matches UpgradeState::AwaitEngine(v) ==> k == 2 && found_version(cmd, events[0])
            == Some(v) && events[1] == UpgradeEvent::Confirmed(Ok(true)),
        states[k] matches UpgradeState::AwaitReplaced(v) ==> k == 3 && found_version(
            cmd,
            events[0],
        ) == Some(v) && events[1] == UpgradeEvent::Confirmed(Ok(true)),
    decreases k,
{
    if k > 0 {
        found_so_far(cmd, current, states, events, outs, k - 1);
        let first = events[0];
        let e = events[k - 1];
        assert(is_step(current, states[k - 1], e, outs[k - 1]));
    }
}

/// Over every upgrade, whatever is asked to be installed is what `=` followed by the text of
/// the version that was found to be the latest is read as, for releases and pre-releases
/// alike, and only once the user has agreed to that version.
pub proof fn latest_version_is_installed(
    cmd: SelfUpgradeCommand,
    current: Version,
    states: Seq<UpgradeState>,
    events: Seq<UpgradeEvent>,
    outs: Seq<UpgradeStep>,
    k: int,
    q: VersionReq,
)
    requires
        is_run(cmd, current, states, events, outs),
        0 <= k < events.len(),
        outs[k].action == UpgradeAction::GetOrDownload(q),
    ensures
        k == 1,
        events[1] == UpgradeEvent::Confirmed(Ok(true)),
        match events[0] {
            UpgradeEvent::Cached(Ok(Some(v))) => cmd.use_cached && parsed_requirement(
                "="@ + version_text(v@),
            ) == Ok::<Seq<char>, Seq<char>>(q@),
            UpgradeEvent::Latest(Ok(v)) => !cmd.use_cached && parsed_requirement(
                "="@ + version_text(v@),
            ) == Ok::<Seq<char>, Seq<char>>(q@),
            _ => false,
        },
{
    let e = events[k];
    assert(is_step(current, states[k], e, outs[k]));
    found_so_far(cmd, current, states, events, outs, k);
    let first = events[0];
}

/// The version that was found to be the latest is offered to the user, without its build
/// metadata, if and only if without it that version is ordered above the one that is
/// running. If it is not, the upgrade ends, and the user is told that there is nothing to
/// upgrade to.
pub proof fn newer_versions_are_offered(
    cmd: SelfUpgradeCommand,
    current: Version,
    states: Seq<UpgradeState>,
    events: Seq<UpgradeEvent>,
    outs: Seq<UpgradeStep>,
    v: Version,
)
    requires
        is_run(cmd, current, states, events, outs),
        events.len() > 0,
        found_version(cmd, events[0]) == Some(v),
    ensures
        ({
            let short = (v.major, v.minor, v.patch, v.pre@, Seq::<char>::empty());
            if precedence(short, current@) == Precedence::Higher {
                outs[0].said is None && (outs[0].action matches UpgradeAction::Confirm(shown)
                    && shown@ == version_text(short))
            } else {
                outs[0].said == Some(UpgradeNotice::UpToDate) && outs[0].action
                    == UpgradeAction::Done(Ok::<(), Failure>(()))
            }
        }),
{
    let e = events[0];
    assert(is_step(current, states[0], e, outs[0]));
}

/// A user who does not agree is told that the upgrade is cancelled, and nothing is installed.
pub proof fn refused_upgrades_are_cancelled(
    cmd: SelfUpgradeCommand,
    current: Version,
    states: Seq<UpgradeState>,
    events: Seq<UpgradeEvent>,
    outs: Seq<UpgradeStep>,
    k: int,
)
    requires
        is_run(cmd, current, states, events, outs),
        0 <= k < events.len(),
        events[k] == UpgradeEvent::Confirmed(Ok::<bool, Failure>(false)),
    ensures
        outs[k].said == Some(UpgradeNotice::Cancelled),
        outs[k].action == UpgradeAction::Done(Ok::<(), Failure>(())),
        outs[k].state == UpgradeState::Finished,
{
    let e = events[k];
    assert(is_step(current, states[k], e, outs[k]));
}

/// The program is replaced by what was installed, and once that is done the user is told of
/// the version that was found to be the latest, without its build metadata.
pub proof fn installed_program_replaces_the_old(
    cmd: SelfUpgradeCommand,
    current: Version,
    states: Seq<UpgradeState>,
    events: Seq<UpgradeEvent>,
    outs: Seq<UpgradeStep>,
    k: int,
)
    requires
        is_run(cmd, current, states, events, outs),
        0 <= k < events.len(),
    ensures
        outs[k].action matches UpgradeAction::Replace(path) ==> events[k]
            == UpgradeEvent::Installed(Ok::<String, Failure>(path)),
        events[k] matches UpgradeEvent::Installed(Ok(path)) ==> outs[k].action
            == UpgradeAction::Replace(path),
        outs[k].said matches Some(UpgradeNotice::Upgraded { version }) ==> (events[k] matches
            UpgradeEvent::Replaced(Ok(_))) && outs[k].action == UpgradeAction::Done(Ok::<(), Failure>(())) && (found_version(cmd, events[0])
            matches Some(v) && version@ == version_text(
            (v.major, v.minor, v.patch, v.pre@, Seq::<char>::empty()),
        )),
        events[k] matches UpgradeEvent::Replaced(Ok(_)) ==> outs[k].said matches Some(
            UpgradeNotice::Upgraded { .. },
        ),
{
    let e = events[k];
    assert(is_step(current, states[k], e, outs[k]));
    found_so_far(cmd, current, states, events, outs, k);
}

/// An upgrade starts with the cached version if that is asked for, and else with the latest,
/// among pre-releases only if they are asked for.
pub proof fn upgrades_start_as_asked(cmd: SelfUpgradeCommand, out: UpgradeStep)
    requires
        is_first_step(cmd, out),
    ensures
        out.action == UpgradeAction::ReadCached <==> cmd.use_cached,
        out.action == (UpgradeAction::FindLatest { include_pre: true }) <==> !cmd.use_cached
            && cmd.include_pre,
        out.action == (UpgradeAction::FindLatest { include_pre: false }) <==> !cmd.use_cached
            && !cmd.include_pre,
{
}

/// An error in any of the work ends the upgrade with that error.
pub proof fn errors_end_the_upgrade(
    current: Version,
    s: UpgradeState,
    e: UpgradeEvent,
    out: UpgradeStep,
    f: Failure,
)
    requires
        awaits(s, e),
        is_step(current, s, e, out),
        e == UpgradeEvent::Cached(Err::<Option<Version>, Failure>(f)) || e == UpgradeEvent::Latest(
            Err::<Version, Failure>(f),
        ) || e == UpgradeEvent::Confirmed(Err::<bool, Failure>(f)) || e == UpgradeEvent::Installed(
            Err::<String, Failure>(f),
        ) || e == UpgradeEvent::Replaced(Err::<(), Failure>(f)),
    ensures
        out.action == UpgradeAction::Done(Err::<(), Failure>(f)),
        out.said is None,
{
}

/// What each notice says.
pub proof fn wording_of_notices(version: String)
    ensures
        notice_text(UpgradeNotice::UpToDate) == "already up to date"@,
        notice_text(UpgradeNotice::Cancelled) == "cancelled upgrade"@,
        notice_text((UpgradeNotice::Upgraded { version })) == "upgraded to version "@ + version@
            + "!"@,
{
}

/// An upgrade that the user agrees to goes on, and one for which no version was cached, though
/// that was asked for, fails.
pub proof fn upgrades_go_on(current: Version, s: UpgradeState, e: UpgradeEvent, out: UpgradeStep)
    requires
        awaits(s, e),
        is_step(current, s, e, out),
    ensures
        e == UpgradeEvent::Confirmed(Ok::<bool, Failure>(true)) ==> out.action is GetOrDownload
            && out.said is None,
        e == UpgradeEvent::Cached(Ok::<Option<Version>, Failure>(None)) ==> (out.action matches
            UpgradeAction::Done(Err(f)) && f@ == seq!["no cached version found"@]) && out.said
            is None,
{
}

} // verus!
