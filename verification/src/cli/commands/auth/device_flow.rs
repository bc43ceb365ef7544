//! Logging in with a code that the user enters in a browser.

use super::login::LoginCommand;
use crate::failure::{caused, plain, Failure};
use crate::git_url::GitUrl;
use crate::query::{
    param_pairs, query_text, with_query, Param, ACCESS_TOKEN_URL, DEVICE_CODE_URL,
};
use crate::text;
use vstd::prelude::*;

verus! {

/// What the site says when a login is started.
#[derive(Debug)]
pub struct DeviceCodeResponse {
    pub device_code: String,
    pub user_code: String,
    pub verification_uri: String,
    /// The seconds until the code expires.
    pub expires_in: u64,
    /// The seconds to wait between two questions.
    pub interval: u64,
}

/// Why there is no token yet.
#[derive(Debug)]
pub enum AccessTokenError {
    AuthorizationPending,
    SlowDown { interval: u64 },
    ExpiredToken,
    AccessDenied,
}

/// What the site says when it is asked for the token.
#[derive(Debug)]
pub enum AccessTokenResponse {
    Success { access_token: String },
    Error(AccessTokenError),
}

/// How a request went wrong.
#[derive(Debug)]
pub enum RequestFailure {
    Send(Failure),
    Status(Failure),
    Parse(Failure),
}

/// What is remembered while the user has yet to agree.
#[derive(Debug)]
pub struct Wait {
    pub client_id: String,
    pub device_code: String,
    /// The seconds until the code expires.
    pub time_left: u64,
    /// The seconds to wait between two questions.
    pub interval: u64,
}

/// Where a login stands.
#[derive(Debug)]
pub enum FlowState {
    AwaitRefresh,
    AwaitConfig,
    /// For this client.
    AwaitDeviceCode(String),
    Sleeping(Wait),
    AwaitToken(Wait),
    Finished,
}

/// What is to be done next.
#[derive(Debug)]
pub enum FlowAction {
    Refresh,
    ReadConfig,
    /// Ask for a code, at this address.
    RequestDeviceCode(String),
    /// Wait so many seconds.
    Sleep(u64),
    /// Ask for the token, at this address.
    RequestToken(String),
    Done(Result<String, Failure>),
}

/// What came of the work.
#[derive(Debug)]
pub enum FlowEvent {
    Refreshed(Result<(), Failure>),
    /// The client that the index logs in with, if it has one.
    Config(Result<Option<String>, Failure>),
    DeviceCode(Result<DeviceCodeResponse, RequestFailure>),
    Slept,
    Token(Result<AccessTokenResponse, RequestFailure>),
}

/// Something that is said to the user.
#[derive(Debug)]
pub enum FlowNotice {
    /// This index is logged in to.
    LoggingIn(String),
    /// This code has to be entered at this address, which is opened once the
    /// user has pressed enter.
    Code { user_code: String, uri: String },
}

/// The outcome of a step.
#[derive(Debug)]
pub struct FlowStep {
    pub state: FlowState,
    pub said: Option<FlowNotice>,
    pub action: FlowAction,
}

/// What a notice says.
pub open spec fn notice_text(n: FlowNotice) -> Seq<char> {
    match n {
        FlowNotice::LoggingIn(url) => "logging in into "@ + url@,
        FlowNotice::Code { user_code, uri } => "copy your one-time code: "@ + user_code@
            + "\npress enter to open "@ + uri@ + " in your browser..."@,
    }
}

impl FlowNotice {
    /// What the notice says.
    pub fn message(&self) -> (r: String)
        ensures
            r@ == notice_text(*self),
    {
        match self {
            FlowNotice::LoggingIn(url) => text::cat("logging in into ", url.as_str()),
            FlowNotice::Code { user_code, uri } => text::cat5(
                "copy your one-time code: ",
                user_code.as_str(),
                "\npress enter to open ",
                uri.as_str(),
                " in your browser...",
            ),
        }
    }
}

/// The step leads to that state and action.
pub open spec fn goes(out: FlowStep, state: FlowState, action: FlowAction) -> bool {
    out == (FlowStep { state, said: None, action })
}

/// The step ends the login with that error.
pub open spec fn fails(out: FlowStep, e: Seq<Seq<char>>) -> bool {
    &&& out.state == FlowState::Finished
    &&& out.action matches FlowAction::Done(Err(f))
    &&& f@ == e
}

/// The step ends the login because the code expired.
pub open spec fn expires(out: FlowStep) -> bool {
    fails(out, plain("code expired, please re-run the login command"@))
}

fn go(state: FlowState, action: FlowAction) -> (out: FlowStep)
    ensures
        goes(out, state, action),
{
    FlowStep { state, said: None, action }
}

fn fail(e: Failure) -> (out: FlowStep)
    ensures
        fails(out, e@),
        out.said is None,
{
    go(FlowState::Finished, FlowAction::Done(Err(e)))
}

/// The step waits before the next question, if there is time left for one.
pub open spec fn goes_on(w: Wait, out: FlowStep) -> bool {
    if w.time_left > 0 {
        out.state == FlowState::Sleeping(w) && out.action == FlowAction::Sleep(w.interval)
    } else {
        expires(out)
    }
}

fn go_on(w: Wait) -> (out: FlowStep)
    ensures
        goes_on(w, out),
        out.said is None,
{
    if w.time_left > 0 {
        let interval: u64 = w.interval;
        go(FlowState::Sleeping(w), FlowAction::Sleep(interval))
    } else {
        fail(Failure::of("code expired, please re-run the login command"))
    }
}

/// The error of a request, with what is said of it at each point.
pub open spec fn request_error(
    e: RequestFailure,
    send: Seq<char>,
    status: Seq<char>,
    parse: Seq<char>,
) -> Seq<Seq<char>> {
    match e {
        RequestFailure::Send(e) => caused(send, e@),
        RequestFailure::Status(e) => caused(status, e@),
        RequestFailure::Parse(e) => caused(parse, e@),
    }
}

fn explain(e: RequestFailure, send: &str, status: &str, parse: &str) -> (r: Failure)
    ensures
        r@ == request_error(e, send@, status@, parse@),
{
    match e {
        RequestFailure::Send(e) => e.context(send),
        RequestFailure::Status(e) => e.context(status),
        RequestFailure::Parse(e) => e.context(parse),
    }
}

/// Where a code is asked for.
pub open spec fn code_request(client_id: Seq<char>) -> Seq<char> {
    DEVICE_CODE_URL@ + "?"@ + query_text(seq![("client_id"@, client_id)])
}

/// Where the token is asked for.
pub open spec fn token_request(client_id: Seq<char>, device_code: Seq<char>) -> Seq<char> {
    ACCESS_TOKEN_URL@ + "?"@ + query_text(
        seq![
            ("client_id"@, client_id),
            ("device_code"@, device_code),
            ("grant_type"@, "urn:ietf:params:oauth:grant-type:device_code"@),
        ],
    )
}

fn code_address(client_id: &str) -> (r: String)
    ensures
        r@ == code_request(client_id@),
{
    let mut params: Vec<Param> = Vec::new();
    params.push(Param { key: "client_id", value: client_id.to_owned() });
    assert(param_pairs(params@) =~= seq![("client_id"@, client_id@)]);
    with_query(DEVICE_CODE_URL, &params)
}

fn token_address(client_id: &str, device_code: &str) -> (r: String)
    ensures
        r@ == token_request(client_id@, device_code@),
{
    let grant = "urn:ietf:params:oauth:grant-type:device_code";
    let mut params: Vec<Param> = Vec::new();
    params.push(Param { key: "client_id", value: client_id.to_owned() });
    params.push(Param { key: "device_code", value: device_code.to_owned() });
    params.push(Param { key: "grant_type", value: grant.to_owned() });
    assert(param_pairs(params@) =~= seq![
        ("client_id"@, client_id@),
        ("device_code"@, device_code@),
        ("grant_type"@, grant@),
    ]);
    with_query(ACCESS_TOKEN_URL, &params)
}

/// The step once the index has said how it logs in.
pub open spec fn after_config(r: Result<Option<String>, Failure>, out: FlowStep) -> bool {
    match r {
        Err(e) => fails(out, caused("failed to read index config"@, e@)),
        Ok(None) => fails(out, plain("index not configured for Github oauth."@)),
        Ok(Some(client_id)) => {
            &&& out.state == FlowState::AwaitDeviceCode(client_id)
            &&& out.action matches FlowAction::RequestDeviceCode(address)
            &&& address@ == code_request(client_id@)
        },
    }
}

/// The step once there is a code.
pub open spec fn after_code(
    client_id: String,
    r: Result<DeviceCodeResponse, RequestFailure>,
    out: FlowStep,
) -> bool {
    match r {
        Err(e) => out.said is None && fails(
            out,
            request_error(
                e,
                "failed to send device code request"@,
                "failed to get device code response"@,
                "failed to parse device code response"@,
            ),
        ),
        Ok(code) => {
            &&& out.said == Some(
                FlowNotice::Code { user_code: code.user_code, uri: code.verification_uri },
            )
            &&& goes_on(
                Wait {
                    client_id,
                    device_code: code.device_code,
                    time_left: code.expires_in,
                    interval: code.interval,
                },
                out,
            )
        },
    }
}

/// What is left of the time once the interval is over.
pub open spec fn time_after(time_left: u64, interval: u64) -> u64 {
    if time_left > interval {
        (time_left - interval) as u64
    } else {
        0
    }
}

/// The step once the interval is over.
pub open spec fn after_sleep(w: Wait, out: FlowStep) -> bool {
    &&& out.said is None
    &&& out.state == FlowState::AwaitToken(
        Wait { time_left: time_after(w.time_left, w.interval), ..w },
    )
    &&& out.action matches FlowAction::RequestToken(address)
    &&& address@ == token_request(w.client_id@, w.device_code@)
}

/// The step once the site has answered.
pub open spec fn after_token(
    w: Wait,
    r: Result<AccessTokenResponse, RequestFailure>,
    out: FlowStep,
) -> bool {
    &&& out.said is None
    &&& match r {
        Err(e) => fails(
            out,
            request_error(
                e,
                "failed to send access token request"@,
                "failed to get access token response"@,
                "failed to parse access token response"@,
            ),
        ),
        Ok(AccessTokenResponse::Success { access_token }) => goes(
            out,
            FlowState::Finished,
            FlowAction::Done(Ok(access_token)),
        ),
        Ok(AccessTokenResponse::Error(e)) => match e {
            AccessTokenError::AuthorizationPending => goes_on(w, out),
            AccessTokenError::SlowDown { interval } => goes_on(Wait { interval, ..w }, out),
            AccessTokenError::ExpiredToken => expires(out),
            AccessTokenError::AccessDenied => fails(
                out,
                plain("access denied, re-run the login command"@),
            ),
        },
    }
}

/// Whether the event is one that the state waits for.
pub open spec fn awaits(s: FlowState, e: FlowEvent) -> bool {
    match (s, e) {
        (FlowState::AwaitRefresh, FlowEvent::Refreshed(_)) => true,
        (FlowState::AwaitConfig, FlowEvent::Config(_)) => true,
        (FlowState::AwaitDeviceCode(_), FlowEvent::DeviceCode(_)) => true,
        (FlowState::Sleeping(_), FlowEvent::Slept) => true,
        (FlowState::AwaitToken(_), FlowEvent::Token(_)) => true,
        _ => false,
    }
}

/// What comes of the event in that state.
pub open spec fn is_step(s: FlowState, e: FlowEvent, out: FlowStep) -> bool {
    match (s, e) {
        (FlowState::AwaitRefresh, FlowEvent::Refreshed(r)) => out.said is None && match r {
            Err(e) => fails(out, caused("failed to refresh index"@, e@)),
            Ok(_) => goes(out, FlowState::AwaitConfig, FlowAction::ReadConfig),
        },
        (FlowState::AwaitConfig, FlowEvent::Config(r)) => out.said is None && after_config(r, out),
        (FlowState::AwaitDeviceCode(client_id), FlowEvent::DeviceCode(r)) => after_code(
            client_id,
            r,
            out,
        ),
        (FlowState::Sleeping(w), FlowEvent::Slept) => after_sleep(w, out),
        (FlowState::AwaitToken(w), FlowEvent::Token(r)) => after_token(w, r, out),
        _ => false,
    }
}

fn on_config(r: Result<Option<String>, Failure>) -> (out: FlowStep)
    ensures
        after_config(r, out),
        out.said is None,
{
    match r {
        Err(e) => fail(e.context("failed to read index config")),
        Ok(None) => fail(Failure::of("index not configured for Github oauth.")),
        Ok(Some(client_id)) => {
            let address = code_address(client_id.as_str());
            go(FlowState::AwaitDeviceCode(client_id), FlowAction::RequestDeviceCode(address))
        },
    }
}

fn on_code(client_id: String, r: Result<DeviceCodeResponse, RequestFailure>) -> (out: FlowStep)
    ensures
        after_code(client_id, r, out),
{
    match r {
        Err(e) => fail(
            explain(
                e,
                "failed to send device code request",
                "failed to get device code response",
                "failed to parse device code response",
            ),
        ),
        Ok(code) => {
            let out = go_on(
                Wait {
                    client_id,
                    device_code: code.device_code,
                    time_left: code.expires_in,
                    interval: code.interval,
                },
            );
            FlowStep {
                state: out.state,
                said: Some(
                    FlowNotice::Code { user_code: code.user_code, uri: code.verification_uri },
                ),
                action: out.action,
            }
        },
    }
}

fn on_sleep(w: Wait) -> (out: FlowStep)
    ensures
        after_sleep(w, out),
{
    let time_left: u64 = if w.time_left > w.interval {
        w.time_left - w.interval
    } else {
        0
    };
    let address = token_address(w.client_id.as_str(), w.device_code.as_str());
    go(
        FlowState::AwaitToken(
            Wait {
                client_id: w.client_id,
                device_code: w.device_code,
                time_left,
                interval: w.interval,
            },
        ),
        FlowAction::RequestToken(address),
    )
}

fn on_token(w: Wait, r: Result<AccessTokenResponse, RequestFailure>) -> (out: FlowStep)
    ensures
        after_token(w, r, out),
{
    match r {
        Err(e) => fail(
            explain(
                e,
                "failed to send access token request",
                "failed to get access token response",
                "failed to parse access token response",
            ),
        ),
        Ok(AccessTokenResponse::Success { access_token }) => go(
            FlowState::Finished,
            FlowAction::Done(Ok(access_token)),
        ),
        Ok(AccessTokenResponse::Error(e)) => match e {
            AccessTokenError::AuthorizationPending => go_on(w),
            AccessTokenError::SlowDown { interval } => go_on(
                Wait {
                    client_id: w.client_id,
                    device_code: w.device_code,
                    time_left: w.time_left,
                    interval,
                },
            ),
            AccessTokenError::ExpiredToken => fail(
                Failure::of("code expired, please re-run the login command"),
            ),
            AccessTokenError::AccessDenied => fail(
                Failure::of("access denied, re-run the login command"),
            ),
        },
    }
}

/// The first step: the index is refreshed, and the user is told of it.
pub open spec fn is_first_step(index_url: GitUrl, out: FlowStep) -> bool {
    out == (FlowStep {
        state: FlowState::AwaitRefresh,
        said: Some(FlowNotice::LoggingIn(index_url.shown)),
        action: FlowAction::Refresh,
    })
}

impl LoginCommand {
    /// The first step of a login.
    pub fn authenticate_device_flow(&self, index_url: &GitUrl) -> (out: FlowStep)
        ensures
            is_first_step(*index_url, out),
            out == (FlowStep {
                state: FlowState::AwaitRefresh,
                said: Some(FlowNotice::LoggingIn(index_url.shown)),
                action: FlowAction::Refresh,
            }),
    {
        FlowStep {
            state: FlowState::AwaitRefresh,
            said: Some(FlowNotice::LoggingIn(index_url.shown.clone())),
            action: FlowAction::Refresh,
        }
    }

    /// The next step of a login.
    pub fn step_flow(&self, state: FlowState, event: FlowEvent) -> (out: FlowStep)
        requires
            awaits(state, event),
        ensures
            is_step(state, event, out),
    {
        match (state, event) {
            (FlowState::AwaitRefresh, FlowEvent::Refreshed(r)) => match r {
                Err(e) => fail(e.context("failed to refresh index")),
                Ok(_) => go(FlowState::AwaitConfig, FlowAction::ReadConfig),
            },
            (FlowState::AwaitConfig, FlowEvent::Config(r)) => on_config(r),
            (FlowState::AwaitDeviceCode(client_id), FlowEvent::DeviceCode(r)) => on_code(
                client_id,
                r,
            ),
            (FlowState::Sleeping(w), FlowEvent::Slept) => on_sleep(w),
            (FlowState::AwaitToken(w), FlowEvent::Token(r)) => on_token(w, r),
            _ => go(FlowState::Finished, FlowAction::ReadConfig),
        }
    }
}

// What holds of every login.

/// A login from its start on.
pub open spec fn is_run(
    states: Seq<FlowState>,
    events: Seq<FlowEvent>,
    outs: Seq<FlowStep>,
) -> bool {
    &&& states.len() == events.len() + 1
    &&& outs.len() == events.len()
    &&& states[0] == FlowState::AwaitRefresh
    &&& forall|i: int|
        #![trigger events[i]]
        0 <= i < events.len() ==> {
            &&& awaits(states[i], events[i])
            &&& is_step(states[i], events[i], outs[i])
            &&& states[i + 1] == outs[i].state
        }
}

/// Whether the event is what the action asks for.
pub open spec fn answers(a: FlowAction, e: FlowEvent) -> bool {
    match a {
        FlowAction::Refresh => e is Refreshed,
        FlowAction::ReadConfig => e is Config,
        FlowAction::RequestDeviceCode(_) => e is DeviceCode,
        FlowAction::Sleep(_) => e is Slept,
        FlowAction::RequestToken(_) => e is Token,
        FlowAction::Done(_) => false,
    }
}

/// Whoever does what a step asks for, and answers with what came of it, can take
/// the next step.
pub proof fn answers_are_awaited(s: FlowState, e: FlowEvent, out: FlowStep, next: FlowEvent)
    requires
        awaits(s, e),
        is_step(s, e, out),
        answers(out.action, next),
    ensures
        awaits(out.state, next),
{
}

/// The wait that a state is about.
pub open spec fn wait_of(s: FlowState) -> Option<Wait> {
    match s {
        FlowState::Sleeping(w) => Some(w),
        FlowState::AwaitToken(w) => Some(w),
        _ => None,
    }
}

/// The site is asked for the token only while the code has not expired: there
/// was time left when the wait before the question began.
pub proof fn asked_while_valid(
    states: Seq<FlowState>,
    events: Seq<FlowEvent>,
    outs: Seq<FlowStep>,
    k: int,
)
    requires
        is_run(states, events, outs),
        0 <= k <= events.len(),
    ensures
        states[k] matches FlowState::Sleeping(w) ==> w.time_left > 0,
    decreases k,
{
    if k > 0 {
        asked_while_valid(states, events, outs, k - 1);
        let e = events[k - 1];
        assert(is_step(states[k - 1], e, outs[k - 1]));
    }
}

/// The time that is left never grows, and each wait uses up the interval, or
/// what is left.
pub proof fn time_runs_out(s: FlowState, e: FlowEvent, out: FlowStep)
    requires
        awaits(s, e),
        is_step(s, e, out),
        wait_of(s) is Some,
        wait_of(out.state) is Some,
    ensures
        wait_of(out.state)->0.time_left <= wait_of(s)->0.time_left,
        s is Sleeping ==> wait_of(out.state)->0.time_left == time_after(
            wait_of(s)->0.time_left,
            wait_of(s)->0.interval,
        ),
        s is Sleeping && wait_of(s)->0.time_left > 0 && wait_of(s)->0.interval > 0
            ==> wait_of(out.state)->0.time_left < wait_of(s)->0.time_left,
{
}

/// The seconds that were waited before the step with that index.
pub open spec fn waited(states: Seq<FlowState>, k: int) -> nat
    decreases k,
{
    if k <= 0 {
        0
    } else {
        waited(states, k - 1) + (match states[k - 1] {
            FlowState::Sleeping(w) => w.interval as nat,
            _ => 0,
        })
    }
}

/// The seconds that the code was given before the step with that index.
pub open spec fn granted(events: Seq<FlowEvent>, k: int) -> nat
    decreases k,
{
    if k <= 0 {
        0
    } else {
        match events[k - 1] {
            FlowEvent::DeviceCode(Ok(code)) => code.expires_in as nat,
            _ => granted(events, k - 1),
        }
    }
}

/// What is waited and what is left make up the time that the code was given: a
/// wait begins only before that time is over.
pub proof fn waits_are_bounded(
    states: Seq<FlowState>,
    events: Seq<FlowEvent>,
    outs: Seq<FlowStep>,
    k: int,
)
    requires
        is_run(states, events, outs),
        0 <= k <= events.len(),
    ensures
        wait_of(states[k]) is None && states[k] != FlowState::Finished ==> waited(states, k) == 0,
        wait_of(states[k]) matches Some(w) ==> if w.time_left > 0 {
            waited(states, k) + w.time_left == granted(events, k)
        } else {
            waited(states, k) >= granted(events, k)
        },
        states[k] is Sleeping ==> waited(states, k) < granted(events, k),
    decreases k,
{
    if k > 0 {
        waits_are_bounded(states, events, outs, k - 1);
        asked_while_valid(states, events, outs, k - 1);
        asked_while_valid(states, events, outs, k);
        let e = events[k - 1];
        assert(is_step(states[k - 1], e, outs[k - 1]));
    }
}

/// Throughout a login, the token is asked for with the client and the code that
/// were agreed on at its start.
pub proof fn code_stays_the_same(s: FlowState, e: FlowEvent, out: FlowStep)
    requires
        awaits(s, e),
        is_step(s, e, out),
        wait_of(s) is Some,
        wait_of(out.state) is Some,
    ensures
        wait_of(out.state)->0.client_id == wait_of(s)->0.client_id,
        wait_of(out.state)->0.device_code == wait_of(s)->0.device_code,
{
}

/// A login succeeds only with a token that the site gave.
pub proof fn token_comes_from_the_site(s: FlowState, e: FlowEvent, out: FlowStep, token: String)
    requires
        awaits(s, e),
        is_step(s, e, out),
        out.action == FlowAction::Done(Ok::<String, Failure>(token)),
    ensures
        e == FlowEvent::Token(
            Ok::<AccessTokenResponse, RequestFailure>(
                AccessTokenResponse::Success { access_token: token },
            ),
        ),
{
}

/// The index is asked for its client once it is refreshed. An index without one cannot be
/// logged in to; with one, a code is asked for at the address for codes, for that client.
pub proof fn codes_are_asked_for_the_client_of_the_index(
    s: FlowState,
    e: FlowEvent,
    out: FlowStep,
)
    requires
        awaits(s, e),
        is_step(s, e, out),
    ensures
        e matches FlowEvent::Refreshed(Ok(_)) ==> out.action == FlowAction::ReadConfig,
        e matches FlowEvent::Config(Ok(None)) ==> (out.action matches FlowAction::Done(Err(f))
            && f@ == seq!["index not configured for Github oauth."@]),
        e matches FlowEvent::Config(Ok(Some(client_id))) ==> out.state
            == FlowState::AwaitDeviceCode(client_id) && (out.action matches
            FlowAction::RequestDeviceCode(address) && address@
            == "https://github.com/login/device/code"@ + "?"@ + query_text(
            seq![("client_id"@, client_id@)],
        )),
        out.action is RequestDeviceCode <==> e matches FlowEvent::Config(Ok(Some(_))),
{
}

/// The client that a login is made for, as the index told it.
pub open spec fn client_of(events: Seq<FlowEvent>) -> Option<Seq<char>> {
    if events.len() > 1 {
        match events[1] {
            FlowEvent::Config(Ok(Some(client_id))) => Some(client_id@),
            _ => None,
        }
    } else {
        None
    }
}

/// The code of a login, as the site told it.
pub open spec fn code_of(events: Seq<FlowEvent>) -> Option<DeviceCodeResponse> {
    if events.len() > 2 {
        match events[2] {
            FlowEvent::DeviceCode(Ok(code)) => Some(code),
            _ => None,
        }
    } else {
        None
    }
}

proof fn agreed_so_far(
    states: Seq<FlowState>,
    events: Seq<FlowEvent>,
    outs: Seq<FlowStep>,
    k: int,
)
    requires
        is_run(states, events, outs),
        0 <= k <= events.len(),
    ensures
        states[k] is AwaitRefresh ==> k == 0,
        states[k] is AwaitConfig ==> k == 1,
        states[k] matches FlowState::AwaitDeviceCode(client_id) ==> k == 2 && client_of(events)
            == Some(client_id@),
        wait_of(states[k]) matches Some(w) ==> k >= 3 && client_of(events) == Some(w.client_id@)
            && (code_of(events) matches Some(code) && code.device_code@ == w.device_code@),
    decreases k,
{
    if k > 0 {
        agreed_so_far(states, events, outs, k - 1);
        let e = events[k - 1];
        assert(is_step(states[k - 1], e, outs[k - 1]));
        if k >= 2 {
            let e1 = events[1];
        }
        if k >= 3 {
            let e2 = events[2];
        }
    }
}

/// Throughout a login, the token is asked for at the address for tokens, with the client
/// that the index told and the device code that the site told, and in the way that is for
/// device codes.
pub proof fn tokens_are_asked_for_with_the_code(
    states: Seq<FlowState>,
    events: Seq<FlowEvent>,
    outs: Seq<FlowStep>,
    k: int,
    address: String,
)
    requires
        is_run(states, events, outs),
        0 <= k < events.len(),
        outs[k].action == FlowAction::RequestToken(address),
    ensures
        client_of(events) matches Some(client_id) && (code_of(events) matches Some(code)
            && address@ == "https://github.com/login/oauth/access_token"@ + "?"@ + query_text(
            seq![
                ("client_id"@, client_id),
                ("device_code"@, code.device_code@),
                ("grant_type"@, "urn:ietf:params:oauth:grant-type:device_code"@),
            ],
        )),
        events[k] == FlowEvent::Slept,
{
    let e = events[k];
    assert(is_step(states[k], e, outs[k]));
    agreed_so_far(states, events, outs, k);
}

/// A code is shown to the user with the address that the site gave for it, and the login
/// waits for the interval that the site gave, unless the code has no time left.
pub proof fn codes_are_shown(s: FlowState, out: FlowStep, code: DeviceCodeResponse)
    requires
        awaits(s, FlowEvent::DeviceCode(Ok(code))),
        is_step(s, FlowEvent::DeviceCode(Ok(code)), out),
    ensures
        out.said matches Some(FlowNotice::Code { user_code, uri }) && user_code@ == code.user_code@
            && uri@ == code.verification_uri@,
        code.expires_in > 0 ==> out.action == FlowAction::Sleep(code.interval) && (
        out.state matches FlowState::Sleeping(w) && w.time_left == code.expires_in && w.interval
            == code.interval),
        code.expires_in == 0 ==> (out.action matches FlowAction::Done(Err(f)) && f@ == seq![
            "code expired, please re-run the login command"@,
        ]),
{
}

/// Of a wait the interval is used up, or what is left, and the token is asked for.
pub proof fn waits_use_up_the_time(w: Wait, out: FlowStep)
    requires
        is_step(FlowState::Sleeping(w), FlowEvent::Slept, out),
    ensures
        out.action is RequestToken,
        out.state matches FlowState::AwaitToken(v) && v.interval == w.interval && (if w.time_left
            >= w.interval {
            v.time_left + w.interval == w.time_left
        } else {
            v.time_left == 0
        }),
{
}

/// What comes of asking for the token: a token ends the login with it. While the user has
/// yet to agree, the next wait is as long as the last one, or as the site asks, and comes
/// only if there is time left. A code that expired and a user who refuses end the login.
pub proof fn answers_decide_on_the_wait(
    w: Wait,
    r: AccessTokenResponse,
    out: FlowStep,
)
    requires
        is_step(FlowState::AwaitToken(w), FlowEvent::Token(Ok(r)), out),
    ensures
        ({
            let expired = out.action matches FlowAction::Done(Err(f)) && f@ == seq![
                "code expired, please re-run the login command"@,
            ];
            match r {
                AccessTokenResponse::Success { access_token } => out.action == FlowAction::Done(
                    Ok::<String, Failure>(access_token),
                ),
                AccessTokenResponse::Error(AccessTokenError::AuthorizationPending) => if w.time_left
                    > 0 {
                    out.action == FlowAction::Sleep(w.interval) && out.state
                        == FlowState::Sleeping(w)
                } else {
                    expired
                },
                AccessTokenResponse::Error(AccessTokenError::SlowDown { interval }) => if w.time_left
                    > 0 {
                    out.action == FlowAction::Sleep(interval) && (out.state matches
                        FlowState::Sleeping(v) && v.time_left == w.time_left && v.interval
                        == interval && v.client_id == w.client_id && v.device_code
                        == w.device_code)
                } else {
                    expired
                },
                AccessTokenResponse::Error(AccessTokenError::ExpiredToken) => expired,
                AccessTokenResponse::Error(AccessTokenError::AccessDenied) => out.action matches
                    FlowAction::Done(Err(f)) && f@ == seq![
                    "access denied, re-run the login command"@,
                ],
            }
        }),
{
}

/// Work that fails ends a login with an error.
pub proof fn failures_end_the_login(s: FlowState, e: FlowEvent, out: FlowStep)
    requires
        awaits(s, e),
        is_step(s, e, out),
        match e {
            FlowEvent::Refreshed(r) => r is Err,
            FlowEvent::Config(r) => r is Err,
            FlowEvent::DeviceCode(r) => r is Err,
            FlowEvent::Slept => false,
            FlowEvent::Token(r) => r is Err,
        },
    ensures
        out.state == FlowState::Finished,
        out.action matches FlowAction::Done(Err(_)),
        out.said is None,
{
}

/// What each notice says.
pub proof fn wording_of_notices(url: String, user_code: String, uri: String)
    ensures
        notice_text(FlowNotice::LoggingIn(url)) == "logging in into "@ + url@,
        notice_text((FlowNotice::Code { user_code, uri })) == "copy your one-time code: "@
            + user_code@ + "\npress enter to open "@ + uri@ + " in your browser..."@,
{
}

/// What is said of the work that the event tells has failed, and the failure.
pub open spec fn failed_work(e: FlowEvent) -> Option<(Seq<char>, Failure)> {
    match e {
        FlowEvent::Refreshed(Err(f)) => Some(("failed to refresh index"@, f)),
        FlowEvent::Config(Err(f)) => Some(("failed to read index config"@, f)),
        FlowEvent::DeviceCode(Err(RequestFailure::Send(f))) => Some(
            ("failed to send device code request"@, f),
        ),
        FlowEvent::DeviceCode(Err(RequestFailure::Status(f))) => Some(
            ("failed to get device code response"@, f),
        ),
        FlowEvent::DeviceCode(Err(RequestFailure::Parse(f))) => Some(
            ("failed to parse device code response"@, f),
        ),
        FlowEvent::Token(Err(RequestFailure::Send(f))) => Some(
            ("failed to send access token request"@, f),
        ),
        FlowEvent::Token(Err(RequestFailure::Status(f))) => Some(
            ("failed to get access token response"@, f),
        ),
        FlowEvent::Token(Err(RequestFailure::Parse(f))) => Some(
            ("failed to parse access token response"@, f),
        ),
        _ => None,
    }
}

/// Work that fails ends a login with that failure, behind what is said of the work.
pub proof fn failures_are_told_with_their_work(s: FlowState, e: FlowEvent, out: FlowStep)
    requires
        awaits(s, e),
        is_step(s, e, out),
        failed_work(e) is Some,
    ensures
        out.action matches FlowAction::Done(Err(g)) && (failed_work(e) matches Some((said, f))
            && g@ == seq![said] + f@),
{
}

/// A login starts with the index, which is told as it is shown.
pub proof fn logins_start_with_the_index(index_url: GitUrl, out: FlowStep)
    requires
        is_first_step(index_url, out),
    ensures
        out.action == FlowAction::Refresh,
        out.state == FlowState::AwaitRefresh,
        out.said matches Some(FlowNotice::LoggingIn(shown)) && shown@ == index_url.shown@,
{
}

} // verus!
