//! Publishing a whole workspace: its root, then its members.

use super::errors::{error_causes, error_text, PublishError};
use super::steps::PublishCommand;
use crate::cli::members::{
    self, is_shifted, step_members, Member, MemberList, WalkAction, WalkEvent, WalkState, WalkStep,
};
use crate::cli::report::{display_err, error_lines, line_views, Backtrace, Line, LineParts};
use crate::failure::Failure;
use crate::project::Project;
use crate::text;
use vstd::prelude::*;

verus! {

/// Where the publication of a workspace stands.
#[derive(Debug)]
pub enum RunState {
    AwaitRoot,
    /// The members are gone through.
    Walking(WalkState),
    Finished,
}

/// What is to be done next.
#[derive(Debug)]
pub enum RunAction {
    /// Publish the package that the command is run in.
    PublishRoot,
    ListMembers,
    NextMember,
    /// Publish the member with this project.
    PublishMember(Project),
    Done(Result<(), Failure>),
}

/// What came of the work.
#[derive(Debug)]
pub enum RunEvent {
    /// A publication ended; where its error came up, if there was one.
    Published(Result<(), PublishError>, Backtrace),
    Walk(WalkEvent),
}

/// The outcome of a step.
#[derive(Debug)]
pub struct RunStep {
    pub state: RunState,
    /// What the user is told.
    pub lines: Vec<Line>,
    pub action: RunAction,
}

/// An error as it is told to the user.
pub open spec fn told(e: PublishError) -> Seq<Seq<char>> {
    seq![error_text(e)] + error_causes(e)
}

/// The lines that tell of the end of a publication.
pub open spec fn end_lines(
    r: Result<(), PublishError>,
    prefix: Seq<char>,
    b: Backtrace,
) -> Seq<LineParts> {
    match r {
        Ok(_) => Seq::empty(),
        Err(e) => error_lines(error_text(e), error_causes(e), prefix, b),
    }
}

fn tell_end(r: Result<(), PublishError>, prefix: &str, b: Backtrace) -> (lines: Vec<Line>)
    ensures
        line_views(lines@) == end_lines(r, prefix@, b),
{
    let r = match r {
        Ok(_) => Ok(()),
        Err(e) => {
            let f = e.into_failure();
            assert(f@[0] == f.message@);
            assert(f@.skip(1) =~= text::texts(f.causes@));
            assert(told(e)[0] == error_text(e));
            assert(told(e).skip(1) =~= error_causes(e));
            Err(f)
        },
    };
    let lines = display_err(r, prefix, b);
    assert(r is Ok ==> line_views(lines@) =~= Seq::empty());
    lines
}

/// Whether the state and the action are those of the walk.
pub open spec fn carried(walk: WalkStep, out: RunStep) -> bool {
    match walk.action {
        WalkAction::ListMembers => out.state == RunState::Walking(walk.state) && out.action
            == RunAction::ListMembers,
        WalkAction::NextMember => out.state == RunState::Walking(walk.state) && out.action
            == RunAction::NextMember,
        WalkAction::Run(p) => out.state == RunState::Walking(walk.state) && out.action
            == RunAction::PublishMember(p),
        WalkAction::Done(Ok(_)) => out.state == RunState::Finished && out.action
            == RunAction::Done(Ok(())),
        WalkAction::Done(Err(e)) => out.state == RunState::Finished && out.action
            == RunAction::Done(Err(e)),
    }
}

fn carry(walk: WalkStep, lines: Vec<Line>) -> (out: RunStep)
    ensures
        carried(walk, out),
        out.lines == lines,
{
    match walk.action {
        WalkAction::ListMembers => RunStep {
            state: RunState::Walking(walk.state),
            lines,
            action: RunAction::ListMembers,
        },
        WalkAction::NextMember => RunStep {
            state: RunState::Walking(walk.state),
            lines,
            action: RunAction::NextMember,
        },
        WalkAction::Run(p) => RunStep {
            state: RunState::Walking(walk.state),
            lines,
            action: RunAction::PublishMember(p),
        },
        WalkAction::Done(Ok(_)) => RunStep {
            state: RunState::Finished,
            lines,
            action: RunAction::Done(Ok(())),
        },
        WalkAction::Done(Err(e)) => RunStep {
            state: RunState::Finished,
            lines,
            action: RunAction::Done(Err(e)),
        },
    }
}

/// Whether the event is one that the state waits for.
pub open spec fn awaits(s: RunState, e: RunEvent) -> bool {
    match (s, e) {
        (RunState::AwaitRoot, RunEvent::Published(_, _)) => true,
        (RunState::Walking(w), RunEvent::Published(_, _)) => w is AwaitRun && members::well_formed(
            w,
        ),
        (RunState::Walking(w), RunEvent::Walk(e)) => !(w is AwaitRun) && members::awaits(w, e),
        _ => false,
    }
}

/// What comes of the event in that state. Whatever comes of a member, the others
/// have their turn.
pub open spec fn is_step(project: Project, s: RunState, e: RunEvent, out: RunStep) -> bool {
    match (s, e) {
        (RunState::AwaitRoot, RunEvent::Published(r, b)) => if project.workspace_dir is Some {
            &&& out.lines@.len() == 0
            &&& out.state == RunState::Finished
            &&& out.action matches RunAction::Done(done)
            &&& match r {
                Ok(_) => done is Ok,
                Err(e) => done is Err && done->Err_0@ == told(e),
            }
        } else {
            &&& line_views(out.lines@) == end_lines(
                r,
                " occurred publishing workspace root"@,
                b,
            )
            &&& out.state == RunState::Walking(WalkState::AwaitListing)
            &&& out.action == RunAction::ListMembers
        },
        (RunState::Walking(w), RunEvent::Published(r, b)) => {
            &&& line_views(out.lines@) == end_lines(
                r,
                " occurred publishing workspace member"@,
                b,
            )
            &&& exists|walk: WalkStep|
                members::is_step(project, w, WalkEvent::Ran(Ok(())), walk) && #[trigger] carried(
                    walk,
                    out,
                )
        },
        (RunState::Walking(w), RunEvent::Walk(e)) => {
            &&& out.lines@.len() == 0
            &&& exists|walk: WalkStep|
                members::is_step(project, w, e, walk) && #[trigger] carried(walk, out)
        },
        _ => false,
    }
}

impl PublishCommand {
    /// The first step of publishing a workspace.
    pub fn run(&self) -> (out: RunStep)
        ensures
            out.state == RunState::AwaitRoot,
            out.lines@.len() == 0,
            out.action == RunAction::PublishRoot,
    {
        RunStep { state: RunState::AwaitRoot, lines: Vec::new(), action: RunAction::PublishRoot }
    }

    /// The next step of publishing a workspace.
    pub fn step_workspace(&self, project: &Project, state: RunState, event: RunEvent) -> (out:
        RunStep)
        requires
            awaits(state, event),
        ensures
            is_step(*project, state, event, out),
    {
        match (state, event) {
            (RunState::AwaitRoot, RunEvent::Published(r, b)) => {
                if project.workspace_dir.is_some() {
                    let done = match r {
                        Ok(_) => Ok(()),
                        Err(e) => Err(e.into_failure()),
                    };
                    return RunStep {
                        state: RunState::Finished,
                        lines: Vec::new(),
                        action: RunAction::Done(done),
                    };
                }
                let lines = tell_end(r, " occurred publishing workspace root", b);
                carry(members::run_on_workspace_members(project), lines)
            },
            (RunState::Walking(w), RunEvent::Published(r, b)) => {
                let lines = tell_end(r, " occurred publishing workspace member", b);
                let walk = step_members(project, w, WalkEvent::Ran(Ok(())));
                carry(walk, lines)
            },
            (RunState::Walking(w), RunEvent::Walk(e)) => {
                let walk = step_members(project, w, e);
                carry(walk, Vec::new())
            },
            _ => RunStep {
                state: RunState::Finished,
                lines: Vec::new(),
                action: RunAction::PublishRoot,
            },
        }
    }
}

// What holds of every such publication.

/// Whether the event is what the action asks for.
pub open spec fn answers(a: RunAction, e: RunEvent) -> bool {
    match a {
        RunAction::PublishRoot => e is Published,
        RunAction::ListMembers => e matches RunEvent::Walk(w) && w is Listed,
        RunAction::NextMember => e matches RunEvent::Walk(w) && w is Member,
        RunAction::PublishMember(_) => e is Published,
        RunAction::Done(_) => false,
    }
}

/// Whoever does what a step asks for, and answers with what came of it, can take
/// the next step.
pub proof fn answers_are_awaited(
    project: Project,
    s: RunState,
    e: RunEvent,
    out: RunStep,
    next: RunEvent,
)
    requires
        awaits(s, e),
        is_step(project, s, e, out),
        answers(out.action, next),
    ensures
        awaits(out.state, next),
{
}

/// A member that could not be published does not keep the others from being
/// published: the next one has its turn.
pub proof fn failures_do_not_spread(
    project: Project,
    list: MemberList,
    m: Member,
    r: Result<(), PublishError>,
    b: Backtrace,
    out: RunStep,
)
    requires
        awaits(
            RunState::Walking(WalkState::AwaitRun(list, m)),
            RunEvent::Published(r, b),
        ),
        is_step(
            project,
            RunState::Walking(WalkState::AwaitRun(list, m)),
            RunEvent::Published(r, b),
            out,
        ),
    ensures
        out.action == RunAction::NextMember,
{
}

/// Only the members of the workspace that the command is run in are published,
/// each as a member of it.
pub proof fn members_are_published_as_such(
    project: Project,
    s: RunState,
    e: RunEvent,
    out: RunStep,
    p: Project,
)
    requires
        awaits(s, e),
        is_step(project, s, e, out),
        out.action == RunAction::PublishMember(p),
    ensures
        e matches RunEvent::Walk(WalkEvent::Member(Some(Ok(m)))) && is_shifted(
            project,
            m.path@,
            p,
        ),
{
}

/// A package that is a member of a workspace elsewhere is published alone, and what came of
/// that is what comes of the command: its error, with what caused it, and nothing else.
pub proof fn members_are_published_alone(
    project: Project,
    r: Result<(), PublishError>,
    b: Backtrace,
    out: RunStep,
)
    requires
        project.workspace_dir is Some,
        is_step(project, RunState::AwaitRoot, RunEvent::Published(r, b), out),
    ensures
        out.lines@.len() == 0,
        out.state == RunState::Finished,
        r is Ok ==> (out.action matches RunAction::Done(Ok(_))),
        r matches Err(e) ==> (out.action matches RunAction::Done(Err(f)) && f@ == seq![
            error_text(e),
        ] + error_causes(e)),
{
}

/// After the root of a workspace its members follow, whatever came of the root; an error is
/// told as one of the root. An error of a member is told as one of a member. Nothing is told
/// of a publication that succeeded.
pub proof fn errors_in_workspaces_are_told(
    project: Project,
    s: RunState,
    r: Result<(), PublishError>,
    b: Backtrace,
    out: RunStep,
)
    requires
        project.workspace_dir is None,
        awaits(s, RunEvent::Published(r, b)),
        is_step(project, s, RunEvent::Published(r, b), out),
    ensures
        s == RunState::AwaitRoot ==> out.action == RunAction::ListMembers,
        s is Walking ==> out.action == RunAction::NextMember,
        r is Ok ==> out.lines@.len() == 0,
        r matches Err(e) ==> line_views(out.lines@) == error_lines(
            error_text(e),
            error_causes(e),
            if s == RunState::AwaitRoot {
                " occurred publishing workspace root"@
            } else {
                " occurred publishing workspace member"@
            },
            b,
        ),
{
    if r is Ok {
        assert(line_views(out.lines@).len() == out.lines@.len());
    }
}

/// The walk through the members decides what is done: members are listed and published in
/// turn, and the command ends with the walk, without an error unless the walk has one.
pub proof fn walks_are_followed(project: Project, w: WalkState, e: WalkEvent, out: RunStep)
    requires
        awaits(RunState::Walking(w), RunEvent::Walk(e)),
        is_step(project, RunState::Walking(w), RunEvent::Walk(e), out),
    ensures
        out.lines@.len() == 0,
        e matches WalkEvent::Listed(Ok(_)) ==> out.action == RunAction::NextMember,
        e matches WalkEvent::Listed(Err(f)) ==> out.action == RunAction::Done(Err::<(), Failure>(f)),
        e matches WalkEvent::Member(None) ==> out.action == RunAction::Done(Ok::<(), Failure>(())),
        e matches WalkEvent::Member(Some(Err(f))) ==> out.action == RunAction::Done(
            Err::<(), Failure>(f),
        ),
        e matches WalkEvent::Member(Some(Ok(m))) ==> out.action is PublishMember || out.action
            == RunAction::NextMember,
{
}

} // verus!
