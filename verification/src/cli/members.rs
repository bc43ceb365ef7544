//! Going through the members of a workspace.

use crate::failure::Failure;
use crate::project::{token_pairs, Project, TargetKind};
use crate::relative::{first_component, first_part};
use crate::text;
use vstd::prelude::*;

verus! {

/// Whether `r` is the project with the package in that directory, as a member
/// of the workspace that the package of `project` is the root of.
pub open spec fn is_shifted(project: Project, dir: Seq<char>, r: Project) -> bool {
    &&& r.package_dir@ == dir
    &&& r.workspace_dir == Some(project.package_dir)
    &&& r.data_dir == project.data_dir
    &&& r.cas_dir == project.cas_dir
    &&& token_pairs(r.auth_config.tokens@) == token_pairs(project.auth_config.tokens@)
    &&& project.auth_config.well_formed() ==> r.auth_config.well_formed()
}

/// The project of a member of the workspace.
pub fn shift_project_dir(project: &Project, pkg_dir: String) -> (r: Project)
    ensures
        is_shifted(*project, pkg_dir@, r),
{
    Project {
        package_dir: pkg_dir,
        workspace_dir: Some(project.package_dir.clone()),
        data_dir: project.data_dir.clone(),
        cas_dir: project.cas_dir.clone(),
        auth_config: project.auth_config.copy(),
    }
}

/// A member of the workspace.
#[derive(Debug)]
pub struct Member {
    /// Its directory.
    pub path: String,
    /// Its directory, relative to the workspace.
    pub relative: String,
    pub name: String,
    pub kind: TargetKind,
}

/// A member that was found: its name and target, and its directory relative to
/// the workspace.
#[derive(Debug)]
pub struct MemberEntry {
    pub name: String,
    pub kind: TargetKind,
    pub relative: String,
}

/// The members that were found, one for each name and target.
#[derive(Debug)]
pub struct MemberList {
    pub entries: Vec<MemberEntry>,
}

/// By what a member is found.
pub open spec fn entry_key(e: MemberEntry) -> (Seq<char>, TargetKind) {
    (e.name@, e.kind)
}

/// The directory that an entry of the list tells for the name and target, if
/// one does.
pub open spec fn told(entries: Seq<MemberEntry>, key: (Seq<char>, TargetKind)) -> Option<Seq<char>>
    decreases entries.len(),
{
    if entries.len() == 0 {
        None
    } else if entry_key(entries.last()) == key {
        Some(entries.last().relative@)
    } else {
        told(entries.drop_last(), key)
    }
}

impl View for MemberList {
    type V = spec_fn((Seq<char>, TargetKind)) -> Option<Seq<char>>;

    open spec fn view(&self) -> spec_fn((Seq<char>, TargetKind)) -> Option<Seq<char>> {
        |key: (Seq<char>, TargetKind)| told(self.entries@, key)
    }
}

/// No two entries are for the same name and target.
pub open spec fn distinct_entries(entries: Seq<MemberEntry>) -> bool {
    forall|i: int, j: int|
        0 <= i < j < entries.len() ==> entry_key(#[trigger] entries[i]) != entry_key(
            #[trigger] entries[j],
        )
}

proof fn lemma_told(entries: Seq<MemberEntry>, key: (Seq<char>, TargetKind), i: int)
    requires
        distinct_entries(entries),
        0 <= i < entries.len(),
        entry_key(entries[i]) == key,
    ensures
        told(entries, key) == Some(entries[i].relative@),
    decreases entries.len(),
{
    if i < entries.len() - 1 {
        let rest = entries.drop_last();
        assert(entry_key(entries[i]) != entry_key(entries[entries.len() - 1]));
        assert forall|a: int, b: int| 0 <= a < b < rest.len() implies entry_key(
            #[trigger] rest[a],
        ) != entry_key(#[trigger] rest[b]) by {
            assert(rest[a] == entries[a] && rest[b] == entries[b]);
        }
        assert(rest[i] == entries[i]);
        lemma_told(rest, key, i);
    }
}

proof fn lemma_not_told(entries: Seq<MemberEntry>, key: (Seq<char>, TargetKind))
    requires
        forall|i: int| 0 <= i < entries.len() ==> entry_key(#[trigger] entries[i]) != key,
    ensures
        told(entries, key) is None,
    decreases entries.len(),
{
    if entries.len() > 0 {
        let rest = entries.drop_last();
        assert(entry_key(entries[entries.len() - 1]) != key);
        assert forall|i: int| 0 <= i < rest.len() implies entry_key(#[trigger] rest[i]) != key by {
            assert(rest[i] == entries[i]);
        }
        lemma_not_told(rest, key);
    }
}

/// What changes in a list of entries when one of them tells another directory.
proof fn lemma_told_update(
    entries: Seq<MemberEntry>,
    i: int,
    e: MemberEntry,
    key: (Seq<char>, TargetKind),
)
    requires
        distinct_entries(entries),
        0 <= i < entries.len(),
        entry_key(entries[i]) == entry_key(e),
    ensures
        distinct_entries(entries.update(i, e)),
        told(entries.update(i, e), key) == (if key == entry_key(e) {
            Some(e.relative@)
        } else {
            told(entries, key)
        }),
{
    let new = entries.update(i, e);
    assert forall|a: int, b: int| 0 <= a < b < new.len() implies entry_key(#[trigger] new[a])
        != entry_key(#[trigger] new[b]) by {
        assert(entry_key(new[a]) == entry_key(entries[a]));
        assert(entry_key(new[b]) == entry_key(entries[b]));
    }
    if key == entry_key(e) {
        lemma_told(new, key, i);
    } else if exists|k: int| 0 <= k < entries.len() && entry_key(#[trigger] entries[k]) == key {
        let k = choose|k: int| 0 <= k < entries.len() && entry_key(#[trigger] entries[k]) == key;
        lemma_told(entries, key, k);
        assert(new[k] == entries[k]);
        lemma_told(new, key, k);
    } else {
        lemma_not_told(entries, key);
        assert forall|k: int| 0 <= k < new.len() implies entry_key(#[trigger] new[k]) != key by {
            assert(entry_key(new[k]) == entry_key(entries[k]));
            assert(entry_key(entries[k]) != key);
        }
        lemma_not_told(new, key);
    }
}

impl MemberList {
    /// No two entries are for the same name and target.
    pub open spec fn well_formed(&self) -> bool {
        distinct_entries(self.entries@)
    }

    /// No members.
    pub fn empty() -> (r: MemberList)
        ensures
            r.well_formed(),
            forall|key: (Seq<char>, TargetKind)| #[trigger] (r@)(key) is None,
    {
        MemberList { entries: Vec::new() }
    }

    /// Notes where the member with that name and target is.
    pub fn insert(&mut self, name: String, kind: TargetKind, relative: String)
        requires
            old(self).well_formed(),
        ensures
            final(self).well_formed(),
            forall|key: (Seq<char>, TargetKind)| #[trigger]
                (final(self)@)(key) == (if key == (name@, kind) {
                    Some(relative@)
                } else {
                    (old(self)@)(key)
                }),
    {
        let e = MemberEntry { name, kind, relative };
        let mut i: usize = 0;
        while i < self.entries.len()
            invariant
                i <= self.entries.len(),
                self.entries@ == old(self).entries@,
                distinct_entries(self.entries@),
                e == (MemberEntry { name, kind, relative }),
                forall|j: int|
                    0 <= j < i ==> entry_key(#[trigger] self.entries@[j]) != (name@, kind),
            decreases self.entries.len() - i,
        {
            if self.entries[i].name == e.name && self.entries[i].kind == e.kind {
                let ghost prior = self.entries@;
                self.entries.set(i, e);
                proof {
                    assert forall|key: (Seq<char>, TargetKind)| #[trigger]
                        (self@)(key) == (if key == (name@, kind) {
                            Some(relative@)
                        } else {
                            (old(self)@)(key)
                        }) by {
                        lemma_told_update(prior, i as int, e, key);
                    }
                    lemma_told_update(prior, i as int, e, (name@, kind));
                }
                return ;
            }
            i = i + 1;
        }
        let ghost prior = self.entries@;
        self.entries.push(e);
        assert(self.entries@.drop_last() =~= prior);
        assert(self.entries@.last() == e);
    }
}

// One member after the other.

/// Where the walk through the members stands.
#[derive(Debug)]
pub enum WalkState {
    AwaitListing,
    AwaitMember(MemberList),
    /// Something is done for this member.
    AwaitRun(MemberList, Member),
    Finished,
}

/// What is to be done next.
#[derive(Debug)]
pub enum WalkAction {
    /// Start to list the members of the workspace.
    ListMembers,
    NextMember,
    /// Do what is to be done for a member, in this project.
    Run(Project),
    Done(Result<MemberList, Failure>),
}

/// What came of the work.
#[derive(Debug)]
pub enum WalkEvent {
    Listed(Result<(), Failure>),
    /// The next member, if there is one left.
    Member(Option<Result<Member, Failure>>),
    Ran(Result<(), Failure>),
}

/// The outcome of a step.
#[derive(Debug)]
pub struct WalkStep {
    pub state: WalkState,
    pub action: WalkAction,
}

/// The step ends the walk with that result.
pub open spec fn ends(out: WalkStep, r: Result<MemberList, Failure>) -> bool {
    out == (WalkStep { state: WalkState::Finished, action: WalkAction::Done(r) })
}

/// The list with that member noted.
pub open spec fn noted(list: MemberList, m: Member, r: MemberList) -> bool {
    &&& list.well_formed() ==> r.well_formed()
    &&& list.well_formed() ==> forall|key: (Seq<char>, TargetKind)| #[trigger]
        (r@)(key) == (if key == (m.name@, m.kind) {
            Some(m.relative@)
        } else {
            (list@)(key)
        })
}

/// The step notes the member, and goes on to the next.
pub open spec fn notes(list: MemberList, m: Member, out: WalkStep) -> bool {
    &&& out.action == WalkAction::NextMember
    &&& out.state matches WalkState::AwaitMember(r)
    &&& noted(list, m, r)
}

/// The first step. A package that is a member itself has no members.
pub open spec fn is_first_step(project: Project, out: WalkStep) -> bool {
    if project.workspace_dir is Some {
        &&& out.state == WalkState::Finished
        &&& out.action matches WalkAction::Done(Ok(list))
        &&& list.well_formed()
        &&& forall|key: (Seq<char>, TargetKind)| #[trigger] (list@)(key) is None
    } else {
        out == (WalkStep { state: WalkState::AwaitListing, action: WalkAction::ListMembers })
    }
}

/// Starts a walk through the members of the workspace.
pub fn run_on_workspace_members(project: &Project) -> (out: WalkStep)
    ensures
        is_first_step(*project, out),
{
    if project.workspace_dir.is_some() {
        WalkStep {
            state: WalkState::Finished,
            action: WalkAction::Done(Ok(MemberList::empty())),
        }
    } else {
        WalkStep { state: WalkState::AwaitListing, action: WalkAction::ListMembers }
    }
}

/// Whether the list that a state holds has one entry for each name and target.
pub open spec fn well_formed(s: WalkState) -> bool {
    match s {
        WalkState::AwaitMember(list) => list.well_formed(),
        WalkState::AwaitRun(list, _) => list.well_formed(),
        _ => true,
    }
}

/// Whether the event is one that the state waits for.
pub open spec fn awaits(s: WalkState, e: WalkEvent) -> bool {
    &&& well_formed(s)
    &&& match (s, e) {
        (WalkState::AwaitListing, WalkEvent::Listed(_)) => true,
        (WalkState::AwaitMember(_), WalkEvent::Member(_)) => true,
        (WalkState::AwaitRun(_, _), WalkEvent::Ran(_)) => true,
        _ => false,
    }
}

/// What comes of the event in that state. Nothing is done for the root of the
/// workspace, whose relative path is empty.
pub open spec fn is_step(project: Project, s: WalkState, e: WalkEvent, out: WalkStep) -> bool {
    match (s, e) {
        (WalkState::AwaitListing, WalkEvent::Listed(r)) => match r {
            Err(e) => ends(out, Err(e)),
            Ok(_) => {
                &&& out.action == WalkAction::NextMember
                &&& out.state matches WalkState::AwaitMember(list)
                &&& list.well_formed()
                &&& forall|key: (Seq<char>, TargetKind)| #[trigger] (list@)(key) is None
            },
        },
        (WalkState::AwaitMember(list), WalkEvent::Member(m)) => match m {
            None => ends(out, Ok(list)),
            Some(Err(e)) => ends(out, Err(e)),
            Some(Ok(m)) => if first_part(m.relative@) is None {
                notes(list, m, out)
            } else {
                &&& out.state == WalkState::AwaitRun(list, m)
                &&& out.action matches WalkAction::Run(p)
                &&& is_shifted(project, m.path@, p)
            },
        },
        (WalkState::AwaitRun(list, m), WalkEvent::Ran(r)) => match r {
            Err(e) => ends(out, Err(e)),
            Ok(_) => notes(list, m, out),
        },
        _ => false,
    }
}

fn note(list: MemberList, m: Member) -> (out: WalkStep)
    requires
        list.well_formed(),
    ensures
        notes(list, m, out),
{
    let mut list = list;
    list.insert(m.name, m.kind, m.relative);
    WalkStep { state: WalkState::AwaitMember(list), action: WalkAction::NextMember }
}

fn end(r: Result<MemberList, Failure>) -> (out: WalkStep)
    ensures
        ends(out, r),
{
    WalkStep { state: WalkState::Finished, action: WalkAction::Done(r) }
}

/// The next step of a walk.
pub fn step_members(project: &Project, state: WalkState, event: WalkEvent) -> (out: WalkStep)
    requires
        awaits(state, event),
    ensures
        is_step(*project, state, event, out),
{
    match (state, event) {
        (WalkState::AwaitListing, WalkEvent::Listed(r)) => match r {
            Err(e) => end(Err(e)),
            Ok(_) => WalkStep {
                state: WalkState::AwaitMember(MemberList::empty()),
                action: WalkAction::NextMember,
            },
        },
        (WalkState::AwaitMember(list), WalkEvent::Member(m)) => match m {
            None => end(Ok(list)),
            Some(Err(e)) => end(Err(e)),
            Some(Ok(m)) => {
                if first_component(m.relative.as_str()).is_none() {
                    note(list, m)
                } else {
                    let shifted = shift_project_dir(project, m.path.clone());
                    WalkStep {
                        state: WalkState::AwaitRun(list, m),
                        action: WalkAction::Run(shifted),
                    }
                }
            },
        },
        (WalkState::AwaitRun(list, m), WalkEvent::Ran(r)) => match r {
            Err(e) => end(Err(e)),
            Ok(_) => note(list, m),
        },
        _ => WalkStep { state: WalkState::Finished, action: WalkAction::NextMember },
    }
}

// What holds of every walk.

/// Every step keeps one entry for each name and target.
pub proof fn steps_keep_well_formed(project: Project, s: WalkState, e: WalkEvent, out: WalkStep)
    requires
        awaits(s, e),
        is_step(project, s, e, out),
    ensures
        well_formed(out.state),
{
}

/// Whether the event is what the action asks for.
pub open spec fn answers(a: WalkAction, e: WalkEvent) -> bool {
    match a {
        WalkAction::ListMembers => e is Listed,
        WalkAction::NextMember => e is Member,
        WalkAction::Run(_) => e is Ran,
        WalkAction::Done(_) => false,
    }
}

/// Whoever does what a step asks for, and answers with what came of it, can take
/// the next step.
pub proof fn answers_are_awaited(
    project: Project,
    s: WalkState,
    e: WalkEvent,
    out: WalkStep,
    next: WalkEvent,
)
    requires
        awaits(s, e),
        is_step(project, s, e, out),
        answers(out.action, next),
    ensures
        awaits(out.state, next),
{
}

/// The project of a member has no members of its own: a walk in it is over at
/// once.
pub proof fn members_have_no_members(
    project: Project,
    dir: Seq<char>,
    shifted: Project,
    out: WalkStep,
)
    requires
        is_shifted(project, dir, shifted),
        is_first_step(shifted, out),
    ensures
        out.state == WalkState::Finished,
{
}

/// Nothing is done for the root of the workspace, and something is done for
/// every other member before it is noted.
pub proof fn root_is_skipped(
    project: Project,
    list: MemberList,
    m: Member,
    out: WalkStep,
)
    requires
        is_step(
            project,
            WalkState::AwaitMember(list),
            WalkEvent::Member(Some(Ok(m))),
            out,
        ),
    ensures
        m.relative@.len() == 0 ==> out.action == WalkAction::NextMember,
        out.action is Run <==> first_part(m.relative@) is Some,
{
    assert(m.relative@.len() == 0 ==> first_part(m.relative@) is None) by {
        reveal_with_fuel(text::drop_leading, 2);
        reveal_with_fuel(text::lead_len, 2);
        if m.relative@.len() == 0 {
            let rest = text::drop_leading(m.relative@, '/');
            assert(rest.take(text::lead_len(rest, '/') as int).len() == 0);
        }
    }
}

/// The project of a member lies in the directory of the member, is a member of the workspace
/// whose root the package is, and has the data, the stored files and the tokens of the
/// project.
pub proof fn members_share_the_project(project: Project, dir: Seq<char>, r: Project, i: int)
    requires
        is_shifted(project, dir, r),
        0 <= i < project.auth_config.tokens@.len(),
    ensures
        r.package_dir@ == dir,
        r.workspace_dir matches Some(root) && root@ == project.package_dir@,
        r.data_dir@ == project.data_dir@,
        r.cas_dir@ == project.cas_dir@,
        r.auth_config.tokens@.len() == project.auth_config.tokens@.len(),
        r.auth_config.tokens@[i].token@ == project.auth_config.tokens@[i].token@,
        r.auth_config.tokens@[i].url.text@ == project.auth_config.tokens@[i].url.text@,
        r.auth_config.tokens@[i].url.shown@ == project.auth_config.tokens@[i].url.shown@,
{
    let a = token_pairs(r.auth_config.tokens@);
    let b = token_pairs(project.auth_config.tokens@);
    assert(a.len() == r.auth_config.tokens@.len() && b.len() == project.auth_config.tokens@.len());
    assert(a[i] == b[i]);
}

/// A walk from its start on: the first step, the states that it passed through, and the
/// event and the outcome of each step.
pub open spec fn is_run(
    project: Project,
    first: WalkStep,
    states: Seq<WalkState>,
    events: Seq<WalkEvent>,
    outs: Seq<WalkStep>,
) -> bool {
    &&& states.len() == events.len() + 1
    &&& outs.len() == events.len()
    &&& is_first_step(project, first)
    &&& states[0] == first.state
    &&& forall|i: int|
        #![trigger events[i]]
        0 <= i < events.len() ==> {
            &&& awaits(states[i], events[i])
            &&& is_step(project, states[i], events[i], outs[i])
            &&& states[i + 1] == outs[i].state
        }
}

/// Where the last member with that name and target lies, among those that came up in the
/// first `k` events.
pub open spec fn last_listed(
    events: Seq<WalkEvent>,
    k: int,
    key: (Seq<char>, TargetKind),
) -> Option<Seq<char>>
    decreases k,
{
    if k <= 0 {
        None
    } else {
        match events[k - 1] {
            WalkEvent::Member(Some(Ok(m))) if (m.name@, m.kind) == key => Some(m.relative@),
            _ => last_listed(events, k - 1, key),
        }
    }
}

proof fn listed_so_far(
    project: Project,
    first: WalkStep,
    states: Seq<WalkState>,
    events: Seq<WalkEvent>,
    outs: Seq<WalkStep>,
    k: int,
    key: (Seq<char>, TargetKind),
)
    requires
        is_run(project, first, states, events, outs),
        0 <= k <= events.len(),
    ensures
        states[k] is AwaitListing ==> k == 0,
        states[k] matches WalkState::AwaitMember(list) ==> k > 0 && (list@)(key) == last_listed(
            events,
            k,
            key,
        ),
        states[k] matches WalkState::AwaitRun(list, m) ==> k > 1 && (list@)(key) == last_listed(
            events,
            k - 1,
            key,
        ) && (events[k - 1] matches WalkEvent::Member(Some(Ok(n))) && n == m),
    decreases k,
{
    if k > 0 {
        listed_so_far(project, first, states, events, outs, k - 1, key);
        let e = events[k - 1];
        assert(is_step(project, states[k - 1], e, outs[k - 1]));
        if k > 1 {
            let before = events[k - 2];
        }
        if states[k - 1] is AwaitListing {
            assert(last_listed(events, 0, key) is None);
            assert(last_listed(events, 1, key) is None);
        }
    }
}

/// The members that a walk ends with are all those that came up, each under its name and
/// target with its path in the workspace; of two with the same name and target the later
/// one counts. The root counts too, though nothing is done for it.
pub proof fn all_members_are_listed(
    project: Project,
    first: WalkStep,
    states: Seq<WalkState>,
    events: Seq<WalkEvent>,
    outs: Seq<WalkStep>,
    k: int,
    list: MemberList,
    key: (Seq<char>, TargetKind),
)
    requires
        is_run(project, first, states, events, outs),
        0 <= k < events.len(),
        outs[k].action == WalkAction::Done(Ok::<MemberList, Failure>(list)),
    ensures
        events[k] == WalkEvent::Member(None),
        (list@)(key) == last_listed(events, k, key),
{
    let e = events[k];
    assert(is_step(project, states[k], e, outs[k]));
    listed_so_far(project, first, states, events, outs, k, key);
}

/// What a list of members tells for a name and a target is what its last entry for both
/// tells, and nothing if it has none.
pub proof fn entries_tell_where_members_are(
    entries: Seq<MemberEntry>,
    name: Seq<char>,
    kind: TargetKind,
)
    ensures
        match told(entries, (name, kind)) {
            Some(r) => exists|i: int|
                {
                    &&& 0 <= i < entries.len()
                    &&& (#[trigger] entries[i]).name@ == name
                    &&& entries[i].kind == kind
                    &&& entries[i].relative@ == r
                },
            None => forall|i: int|
                0 <= i < entries.len() ==> !((#[trigger] entries[i]).name@ == name
                    && entries[i].kind == kind),
        },
    decreases entries.len(),
{
    if entries.len() > 0 {
        let rest = entries.drop_last();
        entries_tell_where_members_are(rest, name, kind);
        let n = entries.len() - 1;
        assert forall|i: int| 0 <= i < n implies #[trigger] entries[i] == rest[i] by {}
        if entries[n].name@ == name && entries[n].kind == kind {
            assert(told(entries, (name, kind)) == Some(entries[n].relative@));
        } else if let Some(r) = told(rest, (name, kind)) {
            let i = choose|i: int|
                {
                    &&& 0 <= i < rest.len()
                    &&& (#[trigger] rest[i]).name@ == name
                    &&& rest[i].kind == kind
                    &&& rest[i].relative@ == r
                };
            assert(entries[i] == rest[i]);
        } else {
            assert forall|i: int| 0 <= i < entries.len() implies !((
            #[trigger] entries[i]).name@ == name && entries[i].kind == kind) by {
                if i < n {
                    assert(entries[i] == rest[i]);
                }
            }
        }
    }
}

/// How a walk goes on: each member but the root has its turn, in a project of its own, and
/// the next one follows once that is done. Errors end the walk.
pub proof fn members_have_their_turn(project: Project, s: WalkState, e: WalkEvent, out: WalkStep)
    requires
        awaits(s, e),
        is_step(project, s, e, out),
    ensures
        e matches WalkEvent::Listed(Ok(_)) ==> out.action == WalkAction::NextMember,
        e matches WalkEvent::Listed(Err(f)) ==> out.action == WalkAction::Done(
            Err::<MemberList, Failure>(f),
        ),
        e matches WalkEvent::Member(Some(Err(f))) ==> out.action == WalkAction::Done(
            Err::<MemberList, Failure>(f),
        ),
        e matches WalkEvent::Member(Some(Ok(m))) ==> if first_part(m.relative@) is Some {
            out.action matches WalkAction::Run(p) && p.package_dir@ == m.path@ && (
            p.workspace_dir matches Some(root) && root@ == project.package_dir@)
        } else {
            out.action == WalkAction::NextMember
        },
        e matches WalkEvent::Ran(Ok(_)) ==> out.action == WalkAction::NextMember,
        e matches WalkEvent::Ran(Err(f)) ==> out.action == WalkAction::Done(
            Err::<MemberList, Failure>(f),
        ),
{
}

/// A package that is a member of a workspace elsewhere is not gone through; any other is.
pub proof fn only_roots_are_gone_through(project: Project, out: WalkStep)
    requires
        is_first_step(project, out),
    ensures
        out.action == WalkAction::ListMembers <==> project.workspace_dir is None,
        project.workspace_dir is Some ==> (out.action matches WalkAction::Done(Ok(_))),
{
}

} // verus!
