//! Which directory a file is run in.

use super::run::{
    awaits, is_step, steps_keep_well_formed, well_formed, Place, RunCommand, RunEvent, RunState,
    RunStep,
};
use crate::project::Project;
use crate::text;
use vstd::prelude::*;

verus! {

/// A run from its start on: the states that it passed through, and the event and the
/// outcome of each step.
pub open spec fn is_run(
    cmd: RunCommand,
    project: Project,
    states: Seq<RunState>,
    events: Seq<RunEvent>,
    outs: Seq<RunStep>,
) -> bool {
    &&& states.len() == events.len() + 1
    &&& outs.len() == events.len()
    &&& states[0] == RunState::AwaitManifest
    &&& forall|i: int|
        #![trigger events[i]]
        0 <= i < events.len() ==> {
            &&& awaits(cmd, states[i], events[i])
            &&& is_step(cmd, project, states[i], events[i], outs[i])
            &&& states[i + 1] == outs[i].state
        }
}

/// What was found out about a place that could be the root.
pub struct Look {
    /// The path that was looked at; none for the file itself.
    pub at: Option<String>,
    /// That path, made canonical.
    pub path: Seq<char>,
    /// Whether it is that of a member of the workspace.
    pub member: bool,
    /// Whether there is a manifest in it, as far as that was looked up.
    pub manifest: bool,
    /// The directory above.
    pub above: Option<String>,
}

/// The places that were looked at in the first `k` steps, in turn.
pub open spec fn looks(states: Seq<RunState>, events: Seq<RunEvent>, k: int) -> Seq<Look>
    decreases k,
{
    if k <= 0 {
        Seq::empty()
    } else {
        let rest = looks(states, events, k - 1);
        match (states[k - 1], events[k - 1]) {
            (RunState::AwaitCanonical(_, members, at), RunEvent::Canonical(Ok(path), above)) => {
                rest.push(
                    Look {
                        at,
                        path: path@,
                        member: text::texts(members@).contains(path@),
                        manifest: false,
                        above,
                    },
                )
            },
            (RunState::AwaitManifestCheck(_, _, _, _), RunEvent::HasManifest(b)) => {
                rest.drop_last().push(Look { manifest: b, ..rest.last() })
            },
            _ => rest,
        }
    }
}

/// The members of the workspace, as they became known in the first `k` steps.
pub open spec fn collected(events: Seq<RunEvent>, k: int) -> Option<Vec<String>>
    decreases k,
{
    if k <= 0 {
        None
    } else {
        match events[k - 1] {
            RunEvent::Collected(Ok(members)) => Some(members),
            _ => collected(events, k - 1),
        }
    }
}

/// Whether a place is a root: a member of the workspace that has a manifest.
pub open spec fn is_root(look: Look) -> bool {
    look.member && look.manifest
}

/// The file itself comes first, and after each place the directory above it.
pub open spec fn ascends(list: Seq<Look>) -> bool {
    &&& list.len() > 0 ==> list[0].at is None
    &&& forall|i: int|
        0 < i < list.len() ==> (#[trigger] list[i]).at is Some && list[i].at == list[i - 1].above
}

/// Members are told from other places by that list.
pub open spec fn judged_by(list: Seq<Look>, members: Seq<String>) -> bool {
    forall|i: int|
        0 <= i < list.len() ==> (#[trigger] list[i]).member == text::texts(members).contains(
            list[i].path,
        )
}

/// None of the first `n` places is a root.
pub open spec fn no_root(list: Seq<Look>, n: int) -> bool {
    forall|i: int| 0 <= i < n && i < list.len() ==> !is_root(#[trigger] list[i])
}

/// What was looked at, where a run stands in that state.
pub open spec fn on_track(s: RunState, known: Option<Vec<String>>, list: Seq<Look>) -> bool {
    match s {
        RunState::AwaitCanonical(_, members, at) => {
            &&& known == Some(members)
            &&& ascends(list)
            &&& judged_by(list, members@)
            &&& no_root(list, list.len() as int)
            &&& if list.len() == 0 {
                at is None
            } else {
                at is Some && at == list.last().above
            }
        },
        RunState::AwaitManifestCheck(_, members, path, above) => {
            &&& known == Some(members)
            &&& ascends(list)
            &&& judged_by(list, members@)
            &&& no_root(list, list.len() - 1)
            &&& list.len() > 0
            &&& list.last().path == path@
            &&& list.last().member
            &&& list.last().above == above
        },
        RunState::AwaitRoot(_, root) => is_nearest(root, known, list),
        RunState::Finished => true,
        _ => list.len() == 0,
    }
}

/// Whether that is the nearest root, given the members of the workspace and the places
/// that were looked at: the last of them, and no other is one, or the package if none is.
pub open spec fn is_nearest(root: Place, known: Option<Vec<String>>, list: Seq<Look>) -> bool {
    &&& known is Some
    &&& list.len() > 0
    &&& ascends(list)
    &&& judged_by(list, known->0@)
    &&& no_root(list, list.len() - 1)
    &&& match root {
        Place::At(path) => is_root(list.last()) && list.last().path == path@,
        Place::PackageDir => !is_root(list.last()) && list.last().above is None,
        _ => false,
    }
}

proof fn on_track_so_far(
    cmd: RunCommand,
    project: Project,
    states: Seq<RunState>,
    events: Seq<RunEvent>,
    outs: Seq<RunStep>,
    k: int,
)
    requires
        is_run(cmd, project, states, events, outs),
        0 <= k <= events.len(),
    ensures
        well_formed(cmd, states[k]),
        on_track(states[k], collected(events, k), looks(states, events, k)),
    decreases k,
{
    if k > 0 {
        on_track_so_far(cmd, project, states, events, outs, k - 1);
        let s = states[k - 1];
        let e = events[k - 1];
        let out = outs[k - 1];
        let prior = looks(states, events, k - 1);
        let list = looks(states, events, k);
        assert(awaits(cmd, s, e) && is_step(cmd, project, s, e, out) && states[k] == out.state);
        steps_keep_well_formed(cmd, project, s, e, out);
        match (s, e) {
            (RunState::AwaitCanonical(_, members, at), RunEvent::Canonical(Ok(path), above)) => {
                let last = list.last();
                assert forall|i: int| 0 <= i < prior.len() implies #[trigger] list[i]
                    == prior[i] by {}
                assert(list[prior.len() as int] == last);
                assert(!is_root(last));
                assert(no_root(list, list.len() as int));
                assert(judged_by(list, members@));
                assert(ascends(list));
            },
            (
                RunState::AwaitManifestCheck(_, members, path, above),
                RunEvent::HasManifest(b),
            ) => {
                let last = list.last();
                assert(list.len() == prior.len());
                assert forall|i: int| 0 <= i < prior.len() - 1 implies #[trigger] list[i]
                    == prior[i] by {}
                assert(list[prior.len() - 1] == last);
                assert(last.at == prior[prior.len() - 1].at);
                assert(last.above == prior[prior.len() - 1].above);
                assert(no_root(list, list.len() - 1));
                assert(judged_by(list, members@));
                assert(ascends(list));
                if !b {
                    assert(!is_root(last));
                    assert(no_root(list, list.len() as int));
                }
            },
            _ => {},
        }
    }
}

/// The root that a file is run in is the nearest directory that is a member of the
/// workspace and has a manifest, starting with the file itself and going up; each place
/// that was looked at before failed one of the two tests. If none passes both up to the
/// topmost directory, the root is the package.
pub proof fn root_is_the_nearest(
    cmd: RunCommand,
    project: Project,
    states: Seq<RunState>,
    events: Seq<RunEvent>,
    outs: Seq<RunStep>,
    k: int,
    root: Place,
)
    requires
        is_run(cmd, project, states, events, outs),
        0 <= k <= events.len(),
        states[k] matches RunState::AwaitRoot(_, r) && r == root,
    ensures
        is_nearest(root, collected(events, k), looks(states, events, k)),
{
    on_track_so_far(cmd, project, states, events, outs, k);
}

} // verus!
