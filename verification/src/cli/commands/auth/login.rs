//! Logging in to an index.

use crate::engine::source::github::{github_token, github_url, is_github_url};
use crate::failure::Failure;
use crate::git_url::{parsed_git_url, GitUrl, GitUrlParts};
use crate::keyed::entry;
use crate::project::Token;
use crate::text;
use vstd::prelude::*;

verus! {

/// Logs in to an index.
#[derive(Debug)]
pub struct LoginCommand {
    /// The token to use for authentication, skipping login.
    pub token: Option<String>,
}

/// Where a login stands.
#[derive(Debug)]
pub enum LoginState {
    AwaitAuthentication,
    /// With this token.
    AwaitName(String),
    /// The token of the index is being saved.
    AwaitSaved(String),
    /// The token of GitHub is being saved.
    AwaitGithub,
    Finished,
}

/// What is to be done next.
#[derive(Debug)]
pub enum LoginAction {
    /// Have the user log in in a browser.
    Authenticate,
    /// Ask whom this token belongs to.
    GetTokenLogin(String),
    /// Save the token for this site.
    SetToken { url: GitUrl, token: String },
    Done(Result<(), Failure>),
}

/// What came of the work.
#[derive(Debug)]
pub enum LoginEvent {
    Authenticated(Result<String, Failure>),
    /// Whom the token belongs to.
    Named(Result<String, Failure>),
    Saved(Result<(), Failure>),
}

/// Something that is said to the user.
#[derive(Debug)]
pub enum LoginNotice {
    TokenSet { index: String },
    LoggedIn { name: String, index: String },
}

/// What a notice says.
pub open spec fn notice_text(n: LoginNotice) -> Seq<char> {
    match n {
        LoginNotice::TokenSet { index } => "set token for "@ + index@,
        LoginNotice::LoggedIn { name, index } => "logged in as "@ + name@ + " for "@ + index@,
    }
}

impl LoginNotice {
    /// What the notice says.
    pub fn message(&self) -> (r: String)
        ensures
            r@ == notice_text(*self),
    {
        match self {
            LoginNotice::TokenSet { index } => text::cat("set token for ", index.as_str()),
            LoginNotice::LoggedIn { name, index } => text::cat4(
                "logged in as ",
                name.as_str(),
                " for ",
                index.as_str(),
            ),
        }
    }
}

/// The outcome of a step.
#[derive(Debug)]
pub struct LoginStep {
    pub state: LoginState,
    pub said: Option<LoginNotice>,
    pub action: LoginAction,
}

/// The step saves that token for that site.
pub open spec fn saves(out: LoginStep, url: GitUrlParts, token: Seq<char>) -> bool {
    &&& out.action matches LoginAction::SetToken { url: u, token: t }
    &&& u@ == url
    &&& t@ == token
}

/// The step ends the login with that result.
pub open spec fn ends(out: LoginStep, r: Result<(), Failure>) -> bool {
    out == (LoginStep { state: LoginState::Finished, said: None, action: LoginAction::Done(r) })
}

/// The first step.
pub open spec fn is_first_step(cmd: LoginCommand, index: GitUrl, out: LoginStep) -> bool {
    match cmd.token {
        None => out == (LoginStep {
            state: LoginState::AwaitAuthentication,
            said: None,
            action: LoginAction::Authenticate,
        }),
        Some(token) => {
            &&& out.said == Some(LoginNotice::TokenSet { index: index.shown })
            &&& out.state == LoginState::AwaitSaved(token)
            &&& saves(out, index@, token@)
        },
    }
}

/// Whether the event is one that the state waits for.
pub open spec fn awaits(s: LoginState, e: LoginEvent) -> bool {
    match (s, e) {
        (LoginState::AwaitAuthentication, LoginEvent::Authenticated(_)) => true,
        (LoginState::AwaitName(_), LoginEvent::Named(_)) => true,
        (LoginState::AwaitSaved(_), LoginEvent::Saved(_)) => true,
        (LoginState::AwaitGithub, LoginEvent::Saved(_)) => true,
        _ => false,
    }
}

/// What comes of the event in that state. A token that came from GitHub is
/// saved for GitHub too.
pub open spec fn is_step(
    cmd: LoginCommand,
    index: GitUrl,
    s: LoginState,
    e: LoginEvent,
    out: LoginStep,
) -> bool {
    match (s, e) {
        (LoginState::AwaitAuthentication, LoginEvent::Authenticated(r)) => match r {
            Err(e) => ends(out, Err(e)),
            Ok(token) => {
                &&& out.said is None
                &&& out.state matches LoginState::AwaitName(t)
                &&& t@ == "Bearer "@ + token@
                &&& out.action matches LoginAction::GetTokenLogin(asked)
                &&& asked == t
            },
        },
        (LoginState::AwaitName(token), LoginEvent::Named(r)) => match r {
            Err(e) => ends(out, Err(e)),
            Ok(name) => {
                &&& out.said == Some(LoginNotice::LoggedIn { name, index: index.shown })
                &&& out.state == LoginState::AwaitSaved(token)
                &&& saves(out, index@, token@)
            },
        },
        (LoginState::AwaitSaved(token), LoginEvent::Saved(r)) => match r {
            Err(e) => ends(out, Err(e)),
            Ok(_) => if cmd.token is Some {
                ends(out, Ok(()))
            } else {
                &&& out.said is None
                &&& out.state == LoginState::AwaitGithub
                &&& out.action matches LoginAction::SetToken { url, token: t }
                &&& is_github_url(url)
                &&& t == token
            },
        },
        (LoginState::AwaitGithub, LoginEvent::Saved(r)) => ends(out, r),
        _ => false,
    }
}

fn end(r: Result<(), Failure>) -> (out: LoginStep)
    ensures
        ends(out, r),
{
    LoginStep { state: LoginState::Finished, said: None, action: LoginAction::Done(r) }
}

impl LoginCommand {
    /// The first step of a login.
    pub fn run(&self, index_url: &GitUrl) -> (out: LoginStep)
        ensures
            is_first_step(*self, *index_url, out),
    {
        match &self.token {
            None => LoginStep {
                state: LoginState::AwaitAuthentication,
                said: None,
                action: LoginAction::Authenticate,
            },
            Some(token) => LoginStep {
                state: LoginState::AwaitSaved(token.clone()),
                said: Some(LoginNotice::TokenSet { index: index_url.shown.clone() }),
                action: LoginAction::SetToken { url: index_url.copy(), token: token.clone() },
            },
        }
    }

    /// The next step of a login.
    pub fn step(&self, index_url: &GitUrl, state: LoginState, event: LoginEvent) -> (out: LoginStep)
        requires
            awaits(state, event),
        ensures
            is_step(*self, *index_url, state, event, out),
    {
        match (state, event) {
            (LoginState::AwaitAuthentication, LoginEvent::Authenticated(r)) => match r {
                Err(e) => end(Err(e)),
                Ok(token) => {
                    let token = text::cat("Bearer ", token.as_str());
                    let asked = token.clone();
                    LoginStep {
                        state: LoginState::AwaitName(token),
                        said: None,
                        action: LoginAction::GetTokenLogin(asked),
                    }
                },
            },
            (LoginState::AwaitName(token), LoginEvent::Named(r)) => match r {
                Err(e) => end(Err(e)),
                Ok(name) => {
                    let saved = token.clone();
                    LoginStep {
                        state: LoginState::AwaitSaved(token),
                        said: Some(
                            LoginNotice::LoggedIn { name, index: index_url.shown.clone() },
                        ),
                        action: LoginAction::SetToken { url: index_url.copy(), token: saved },
                    }
                },
            },
            (LoginState::AwaitSaved(token), LoginEvent::Saved(r)) => match r {
                Err(e) => end(Err(e)),
                Ok(_) => {
                    if self.token.is_some() {
                        end(Ok(()))
                    } else {
                        LoginStep {
                            state: LoginState::AwaitGithub,
                            said: None,
                            action: LoginAction::SetToken { url: github_url(), token },
                        }
                    }
                },
            },
            (LoginState::AwaitGithub, LoginEvent::Saved(r)) => end(r),
            _ => LoginStep {
                state: LoginState::Finished,
                said: None,
                action: LoginAction::Authenticate,
            },
        }
    }
}

// What holds of every login.

/// A token that the user gave is saved for the index and for nothing else.
pub proof fn given_token_is_for_the_index(
    cmd: LoginCommand,
    index: GitUrl,
    first: LoginStep,
    e: LoginEvent,
    out: LoginStep,
)
    requires
        cmd.token is Some,
        is_first_step(cmd, index, first),
        awaits(first.state, e),
        is_step(cmd, index, first.state, e, out),
    ensures
        saves(first, index@, cmd.token->0@),
        out.state == LoginState::Finished,
        out.action matches LoginAction::Done(_),
{
}

/// A token that was given is used without a login.
pub proof fn given_token_skips_the_login(cmd: LoginCommand, index: GitUrl, first: LoginStep)
    requires
        cmd.token is Some,
        is_first_step(cmd, index, first),
    ensures
        !(first.action is Authenticate),
{
}

/// The token of a login in a browser is also the one that engines are downloaded
/// with, once it is saved as the last step asks.
pub proof fn login_serves_downloads(
    cmd: LoginCommand,
    index: GitUrl,
    token: String,
    out: LoginStep,
    tokens: Seq<Token>,
)
    requires
        cmd.token is None,
        is_step(
            cmd,
            index,
            LoginState::AwaitSaved(token),
            LoginEvent::Saved(Ok(())),
            out,
        ),
        out.action matches LoginAction::SetToken { url, token: t } && (entry(
            tokens,
            url.text@,
        ) matches Some(saved) && saved.token == t),
    ensures
        github_token(tokens) == Some(token),
{
}

/// Whether the event is what the action asks for.
pub open spec fn answers(a: LoginAction, e: LoginEvent) -> bool {
    match a {
        LoginAction::Authenticate => e is Authenticated,
        LoginAction::GetTokenLogin(_) => e is Named,
        LoginAction::SetToken { .. } => e is Saved,
        LoginAction::Done(_) => false,
    }
}

/// Whoever does what a step asks for, and answers with what came of it, can take
/// the next step.
pub proof fn answers_are_awaited(
    cmd: LoginCommand,
    index: GitUrl,
    s: LoginState,
    e: LoginEvent,
    out: LoginStep,
    next: LoginEvent,
)
    requires
        awaits(s, e),
        is_step(cmd, index, s, e, out),
        answers(out.action, next),
    ensures
        awaits(out.state, next),
{
}

/// A login ends after at most four steps.
pub open spec fn steps_left(s: LoginState) -> nat {
    match s {
        LoginState::AwaitAuthentication => 4,
        LoginState::AwaitName(_) => 3,
        LoginState::AwaitSaved(_) => 2,
        LoginState::AwaitGithub => 1,
        LoginState::Finished => 0,
    }
}

/// Every step brings a login nearer to its end.
pub proof fn login_ends(
    cmd: LoginCommand,
    index: GitUrl,
    s: LoginState,
    e: LoginEvent,
    out: LoginStep,
)
    requires
        awaits(s, e),
        is_step(cmd, index, s, e, out),
    ensures
        steps_left(out.state) < steps_left(s),
        out.state == LoginState::Finished <==> out.action is Done,
{
}

/// A login from its start on: the first step, the states that it passed through, and the
/// event and the outcome of each step.
pub open spec fn is_run(
    cmd: LoginCommand,
    index: GitUrl,
    first: LoginStep,
    states: Seq<LoginState>,
    events: Seq<LoginEvent>,
    outs: Seq<LoginStep>,
) -> bool {
    &&& states.len() == events.len() + 1
    &&& outs.len() == events.len()
    &&& is_first_step(cmd, index, first)
    &&& states[0] == first.state
    &&& forall|i: int|
        #![trigger events[i]]
        0 <= i < events.len() ==> {
            &&& awaits(states[i], events[i])
            &&& is_step(cmd, index, states[i], events[i], outs[i])
            &&& states[i + 1] == outs[i].state
        }
}

/// Whether that is the token of the login: the one that the user gave, as it is, or else the
/// one that the login in a browser came back with, as a bearer token.
pub open spec fn is_own_token(
    cmd: LoginCommand,
    events: Seq<LoginEvent>,
    token: Seq<char>,
) -> bool {
    match cmd.token {
        Some(given) => token == given@,
        None => events.len() > 0 && (events[0] matches LoginEvent::Authenticated(Ok(t)) && token
            == "Bearer "@ + t@),
    }
}

proof fn token_so_far(
    cmd: LoginCommand,
    index: GitUrl,
    first: LoginStep,
    states: Seq<LoginState>,
    events: Seq<LoginEvent>,
    outs: Seq<LoginStep>,
    k: int,
)
    requires
        is_run(cmd, index, first, states, events, outs),
        0 <= k <= events.len(),
    ensures
        states[k] == LoginState::AwaitAuthentication ==> k == 0 && cmd.token is None,
        states[k] matches LoginState::AwaitName(t) ==> cmd.token is None && is_own_token(
            cmd,
            events,
            t@,
        ),
        states[k] matches LoginState::AwaitSaved(t) ==> is_own_token(cmd, events, t@),
        states[k] == LoginState::AwaitGithub ==> cmd.token is None,
    decreases k,
{
    if k > 0 {
        token_so_far(cmd, index, first, states, events, outs, k - 1);
        let e = events[k - 1];
        let e0 = events[0];
        assert(is_step(cmd, index, states[k - 1], e, outs[k - 1]));
    }
}

/// Whatever token is asked about or saved over a login is the one that the user gave, as it
/// is, or else the one that the login in a browser came back with, as a bearer token. It is
/// saved for the index, and then for GitHub; for GitHub only if it came from a login.
pub proof fn own_token_is_saved(
    cmd: LoginCommand,
    index: GitUrl,
    first: LoginStep,
    states: Seq<LoginState>,
    events: Seq<LoginEvent>,
    outs: Seq<LoginStep>,
    k: int,
)
    requires
        is_run(cmd, index, first, states, events, outs),
        0 <= k < events.len(),
    ensures
        outs[k].action matches LoginAction::GetTokenLogin(t) ==> cmd.token is None && is_own_token(
            cmd,
            events,
            t@,
        ),
        outs[k].action matches LoginAction::SetToken { url, token } ==> is_own_token(
            cmd,
            events,
            token@,
        ) && cmd.token is None && (if events[k] is Named {
            url.text@ == index.text@ && url.shown@ == index.shown@
        } else {
            events[k] is Saved && parsed_git_url("https://github.com"@) == Ok::<
                GitUrlParts,
                Seq<Seq<char>>,
            >((url.text@, url.shown@))
        }),
{
    let e = events[k];
    let e0 = events[0];
    assert(is_step(cmd, index, states[k], e, outs[k]));
    token_so_far(cmd, index, first, states, events, outs, k);
}

/// A token that was given is saved for the index at once, as it is, and that is told; the
/// login is over once it is saved. Without one the user logs in in a browser.
pub proof fn given_tokens_are_saved_as_they_are(cmd: LoginCommand, index: GitUrl, first: LoginStep)
    requires
        is_first_step(cmd, index, first),
    ensures
        match cmd.token {
            Some(given) => {
                &&& first.action matches LoginAction::SetToken { url, token }
                &&& url.text@ == index.text@
                &&& url.shown@ == index.shown@
                &&& token@ == given@
                &&& first.said matches Some(LoginNotice::TokenSet { index: shown })
                &&& shown@ == index.shown@
            },
            None => first.action == LoginAction::Authenticate && first.said is None,
        },
{
}

/// How a login goes on: whom the token belongs to is asked and told, with the index; the
/// token is saved; and a login in a browser saves it once more before it is over.
pub proof fn logins_go_on(
    cmd: LoginCommand,
    index: GitUrl,
    s: LoginState,
    e: LoginEvent,
    out: LoginStep,
)
    requires
        awaits(s, e),
        is_step(cmd, index, s, e, out),
    ensures
        e matches LoginEvent::Authenticated(Ok(_)) ==> out.action is GetTokenLogin && out.said
            is None,
        e matches LoginEvent::Named(Ok(name)) ==> out.action is SetToken && (out.said matches Some(
            LoginNotice::LoggedIn { name: n, index: shown },
        ) && n@ == name@ && shown@ == index.shown@),
        (e matches LoginEvent::Saved(Ok(_))) && s is AwaitSaved && cmd.token is None
            ==> out.action is SetToken && out.said is None,
        (e matches LoginEvent::Saved(Ok(_))) && s is AwaitSaved && cmd.token is Some
            ==> out.action == LoginAction::Done(Ok::<(), Failure>(())),
        (e matches LoginEvent::Saved(Ok(_))) && s is AwaitGithub ==> (out.action matches
            LoginAction::Done(Ok(_))),
        e matches LoginEvent::Authenticated(Err(f)) ==> out.action == LoginAction::Done(
            Err::<(), Failure>(f),
        ),
        e matches LoginEvent::Named(Err(f)) ==> out.action == LoginAction::Done(
            Err::<(), Failure>(f),
        ),
        e matches LoginEvent::Saved(Err(f)) ==> out.action == LoginAction::Done(
            Err::<(), Failure>(f),
        ),
{
}

/// What each notice says.
pub proof fn wording_of_notices(name: String, index: String)
    ensures
        notice_text((LoginNotice::TokenSet { index })) == "set token for "@ + index@,
        notice_text((LoginNotice::LoggedIn { name, index })) == "logged in as "@ + name@ + " for "@
            + index@,
{
}

} // verus!
