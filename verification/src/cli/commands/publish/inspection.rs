//! What a Roblox package may depend on.

use super::errors::PublishError;
use super::included::Rules;
use super::laws::{is_run, stage};
use super::steps::{
    awaits, direct_types, is_step, PublishAction, PublishCommand, PublishEvent, PublishState,
    PublishStep,
};
use crate::failure::Failure;
use crate::project::{DependencyType, Lockfile, Project};
use vstd::prelude::*;
use vstd::set_lib::{lemma_int_range, lemma_subset_equality, set_int_range};

verus! {

/// Whether direct dependency `i` is needed by the package itself, and lacks build files.
pub open spec fn forbidden(types: Seq<DependencyType>, lacks: Seq<bool>, i: int) -> bool {
    lacks[i] && types[i] != DependencyType::Dev
}

/// The direct dependencies whose targets became known in the first `k` steps, in turn.
pub open spec fn inspected(
    states: Seq<PublishState>,
    events: Seq<PublishEvent>,
    k: int,
) -> Seq<int>
    decreases k,
{
    if k <= 0 {
        Seq::empty()
    } else {
        let rest = inspected(states, events, k - 1);
        match (states[k - 1], events[k - 1]) {
            (
                PublishState::AwaitDependency(_, _, _),
                PublishEvent::DependencyTarget(i, _),
            ) => rest.push(i as int),
            _ => rest,
        }
    }
}

/// Whether each of the first `k` events that tells of a direct dependency tells of it what
/// is so, and none tells of one a second time.
pub open spec fn truthful(
    states: Seq<PublishState>,
    events: Seq<PublishEvent>,
    k: int,
    lacks: Seq<bool>,
) -> bool {
    &&& inspected(states, events, k).no_duplicates()
    &&& forall|a: int|
        0 <= a < k && a < events.len() ==> (#[trigger] events[a]
            matches PublishEvent::DependencyTarget(i, r) ==> r == Ok::<bool, Failure>(
            lacks[i as int],
        ))
}

/// Whether the inspection of the dependencies lies behind a publication that goes on.
pub open spec fn past_inspection(s: PublishState) -> bool {
    0 < stage(s) <= 16
}

/// What was found out before a publication stands in that state.
pub open spec fn cleared(
    s: PublishState,
    types: Seq<DependencyType>,
    lacks: Seq<bool>,
    known: Seq<int>,
) -> bool {
    let clear = forall|a: int|
        0 <= a < known.len() ==> 0 <= #[trigger] known[a] < types.len() && !forbidden(
            types,
            lacks,
            known[a],
        );
    match s {
        PublishState::AwaitManifest => known.len() == 0,
        PublishState::AwaitLockfile(_) => known.len() == 0,
        PublishState::AwaitEngines(_, ts) => ts@ == types && known.len() == 0,
        PublishState::Inspect(_, ts, n) => ts@ == types && known.len() == n && n <= types.len()
            && clear,
        PublishState::AwaitDependency(_, ts, n) => ts@ == types && known.len() == n && n
            < types.len() && clear,
        PublishState::Finished => true,
        _ => known.len() == types.len() && clear,
    }
}

/// The direct dependencies that are known after an event.
pub open spec fn known_after(s: PublishState, e: PublishEvent, known: Seq<int>) -> Seq<int> {
    match (s, e) {
        (PublishState::AwaitDependency(_, _, _), PublishEvent::DependencyTarget(i, _)) => {
            known.push(i as int)
        },
        _ => known,
    }
}

/// Whether the step refuses the package for a dependency.
pub open spec fn refuses(out: PublishStep) -> bool {
    out.action == PublishAction::Done(
        Err::<(), PublishError>(PublishError::NonRobloxDependency),
    )
}

/// Some direct dependency is needed by the package itself, and lacks build files.
pub open spec fn any_forbidden(types: Seq<DependencyType>, lacks: Seq<bool>) -> bool {
    exists|i: int| 0 <= i < types.len() && #[trigger] forbidden(types, lacks, i)
}

#[verifier::rlimit(40)]
#[verifier::spinoff_prover]
proof fn cleared_in_step(
    cmd: PublishCommand,
    project: Project,
    rules: Rules,
    s: PublishState,
    e: PublishEvent,
    out: PublishStep,
    types: Seq<DependencyType>,
    lacks: Seq<bool>,
    known: Seq<int>,
)
    requires
        awaits(s, e),
        is_step(cmd, project, rules, s, e, out),
        cleared(s, types, lacks, known),
        s is AwaitManifest ==> out.state is AwaitLockfile,
        s is AwaitLockfile ==> (e matches PublishEvent::Lockfile(Ok(Some(l))) && types
            == direct_types(l.graph@)),
        e matches PublishEvent::DependencyTarget(i, r) ==> r == Ok::<bool, Failure>(
            lacks[i as int],
        ),
    ensures
        cleared(out.state, types, lacks, known_after(s, e, known)),
        !(s is AwaitManifest) ==> !(out.state is AwaitManifest) && !(out.state is AwaitLockfile),
        refuses(out) ==> any_forbidden(types, lacks),
{
    if let PublishState::AwaitDependency(m, ts, n) = s {
        if let PublishEvent::DependencyTarget(i, r) = e {
            let new = known_after(s, e, known);
            if forbidden(types, lacks, i as int) {
                assert(any_forbidden(types, lacks));
            } else {
                assert forall|a: int| 0 <= a < new.len() implies 0 <= #[trigger] new[a]
                    < types.len() && !forbidden(types, lacks, new[a]) by {
                    if a < known.len() {
                        assert(new[a] == known[a]);
                    }
                }
            }
        }
    }
}

proof fn cleared_so_far(
    cmd: PublishCommand,
    project: Project,
    rules: Rules,
    states: Seq<PublishState>,
    events: Seq<PublishEvent>,
    outs: Seq<PublishStep>,
    lockfile: Lockfile,
    lacks: Seq<bool>,
    k: int,
)
    requires
        is_run(cmd, project, rules, states, events, outs),
        0 <= k <= events.len(),
        events.len() > 1,
        events[1] == PublishEvent::Lockfile(Ok(Some(lockfile))),
        truthful(states, events, k, lacks),
    ensures
        cleared(
            states[k],
            direct_types(lockfile.graph@),
            lacks,
            inspected(states, events, k),
        ),
        k == 0 ==> states[k] is AwaitManifest,
        k == 1 ==> states[k] is AwaitLockfile,
        k > 1 ==> !(states[k] is AwaitManifest) && !(states[k] is AwaitLockfile),
        k > 0 && refuses(outs[k - 1]) ==> any_forbidden(direct_types(lockfile.graph@), lacks),
    decreases k,
{
    if k > 0 {
        let s = states[k - 1];
        let e = events[k - 1];
        let known = inspected(states, events, k - 1);
        let new = inspected(states, events, k);
        assert(new == known_after(s, e, known));
        assert forall|a: int, b: int| 0 <= a < known.len() && 0 <= b < known.len() && a
            != b implies known[a] != known[b] by {
            assert(new[a] == known[a] && new[b] == known[b]);
        }
        cleared_so_far(cmd, project, rules, states, events, outs, lockfile, lacks, k - 1);
        if k == 1 {
            let next = events[1];
            assert(awaits(states[1], next));
        }
        cleared_in_step(
            cmd,
            project,
            rules,
            s,
            e,
            outs[k - 1],
            direct_types(lockfile.graph@),
            lacks,
            known,
        );
    }
}

/// If each direct dependency is inspected once, a Roblox package is refused for one of
/// them only if some dependency that is not just for development lacks build files, and if
/// some does, the publication does not get past the inspection.
pub proof fn non_roblox_dependencies_are_refused(
    cmd: PublishCommand,
    project: Project,
    rules: Rules,
    states: Seq<PublishState>,
    events: Seq<PublishEvent>,
    outs: Seq<PublishStep>,
    lockfile: Lockfile,
    lacks: Seq<bool>,
    k: int,
)
    requires
        is_run(cmd, project, rules, states, events, outs),
        0 < k <= events.len(),
        events.len() > 1,
        events[1] == PublishEvent::Lockfile(Ok(Some(lockfile))),
        truthful(states, events, k, lacks),
    ensures
        refuses(outs[k - 1]) ==> any_forbidden(direct_types(lockfile.graph@), lacks),
        past_inspection(states[k]) ==> !any_forbidden(direct_types(lockfile.graph@), lacks),
{
    cleared_so_far(cmd, project, rules, states, events, outs, lockfile, lacks, k);
    let types = direct_types(lockfile.graph@);
    let known = inspected(states, events, k);
    if past_inspection(states[k]) {
        let n = types.len() as int;
        let all = set_int_range(0, n);
        lemma_int_range(0, n);
        known.unique_seq_to_set();
        vstd::seq_lib::seq_to_set_is_finite(known);
        assert(known.to_set().subset_of(all));
        lemma_subset_equality(known.to_set(), all);
        assert forall|i: int| 0 <= i < n implies !(#[trigger] forbidden(types, lacks, i)) by {
            assert(all.contains(i));
            assert(known.contains(i));
            let a = choose|a: int| 0 <= a < known.len() && known[a] == i;
            assert(known[a] == i);
        }
    }
}

/// The error on such a dependency comes exactly when it becomes known that one that is not
/// just for development lacks build files.
pub proof fn refusals_have_a_reason(
    cmd: PublishCommand,
    project: Project,
    rules: Rules,
    s: PublishState,
    e: PublishEvent,
    out: PublishStep,
)
    requires
        awaits(s, e),
        is_step(cmd, project, rules, s, e, out),
    ensures
        refuses(out) <==> (s matches PublishState::AwaitDependency(_, types, _) && (e
            matches PublishEvent::DependencyTarget(i, Ok(true)) && types@[i as int]
            != DependencyType::Dev)),
{
}

} // verus!
