//! The Session Manager and the device-code Auth Flow, as one state machine.
//!
//! Network transport cannot be verified, so the machine is split along the
//! classic line: every decision is a verified step function from the current
//! phase, a transport event, and the clock to the next phase and the actions
//! the transport must perform; an unverified driver performs each action and
//! hands the answer back as the next event. The step function is mirrored by
//! a specification-level function over mathematical models, and the laws of
//! the flow are proved of that mirror.

use vstd::prelude::*;

use crate::api::{AuthStartResponse, AuthTokensErrorResponse, AuthTokensResponse};
use crate::client::{
    saturating_add_u64, spec_saturating_add, Client, ClientModel, TokensModel,
};

verus! {

/// Why establishing a session failed: a transport or decoding failure, a
/// definitive rejection by the token endpoint, an unexpected HTTP status, or
/// the device flow running out of time.
#[derive(Debug, PartialEq, Eq)]
pub enum AuthError {
    Transport,
    Rejected(String),
    UnexpectedStatus(u16),
    Timeout,
}

/// The mathematical value of an [`AuthError`].
#[verifier::ext_equal]
pub enum ErrorModel {
    Transport,
    Rejected(Seq<char>),
    UnexpectedStatus(u16),
    Timeout,
}

impl View for AuthError {
    type V = ErrorModel;

    open spec fn view(&self) -> ErrorModel {
        match self {
            AuthError::Transport => ErrorModel::Transport,
            AuthError::Rejected(s) => ErrorModel::Rejected(s@),
            AuthError::UnexpectedStatus(code) => ErrorModel::UnexpectedStatus(*code),
            AuthError::Timeout => ErrorModel::Timeout,
        }
    }
}

/// One form-encoded POST for the transport to send: the endpoint and the
/// key-value pairs of the body.
#[derive(Debug, PartialEq)]
pub struct FormRequest {
    pub url: String,
    pub params: Vec<(String, String)>,
}

/// The mathematical value of a [`FormRequest`].
#[verifier::ext_equal]
pub struct ReqModel {
    pub url: Seq<char>,
    pub params: Seq<(Seq<char>, Seq<char>)>,
}

impl View for FormRequest {
    type V = ReqModel;

    open spec fn view(&self) -> ReqModel {
        ReqModel {
            url: self.url@,
            params: self.params@.map_values(|p: (String, String)| (p.0@, p.1@)),
        }
    }
}

/// The mathematical value of an [`AuthStartResponse`].
#[verifier::ext_equal]
pub struct StartModel {
    pub device_code: Seq<char>,
    pub expires_in: u64,
    pub interval: u64,
    pub verification_uri_complete: Seq<char>,
}

impl View for AuthStartResponse {
    type V = StartModel;

    open spec fn view(&self) -> StartModel {
        StartModel {
            device_code: self.device_code@,
            expires_in: self.expires_in,
            interval: self.interval,
            verification_uri_complete: self.verification_uri_complete@,
        }
    }
}

/// One classified answer of the token endpoint to a device-flow poll.
#[derive(Debug, PartialEq)]
pub enum PollEvent {
    /// HTTP success; the parsed tokens, or nothing when the body did not
    /// decode.
    HttpOk(Option<AuthTokensResponse>),
    /// HTTP bad request; the parsed error body, or nothing when it did not
    /// decode.
    HttpBadRequest(Option<AuthTokensErrorResponse>),
    /// Any other HTTP status.
    HttpOther(u16),
    /// No answer at all.
    Transport,
}

/// The mathematical value of a [`PollEvent`].
#[verifier::ext_equal]
pub enum PollModel {
    HttpOk(Option<TokensModel>),
    HttpBadRequest(Option<Seq<char>>),
    HttpOther(u16),
    Transport,
}

impl View for PollEvent {
    type V = PollModel;

    open spec fn view(&self) -> PollModel {
        match self {
            PollEvent::HttpOk(Some(t)) => PollModel::HttpOk(Some(t@)),
            PollEvent::HttpOk(None) => PollModel::HttpOk(None),
            PollEvent::HttpBadRequest(Some(e)) => PollModel::HttpBadRequest(Some(e.error@)),
            PollEvent::HttpBadRequest(None) => PollModel::HttpBadRequest(None),
            PollEvent::HttpOther(code) => PollModel::HttpOther(*code),
            PollEvent::Transport => PollModel::Transport,
        }
    }
}

/// Where the session machine stands.
#[derive(Debug, PartialEq)]
pub enum AuthPhase {
    /// Nothing attempted yet this run.
    Idle,
    /// Waiting for the persisted token record.
    LoadingTokens,
    /// Waiting for the token endpoint's answer to a refresh.
    Refreshing,
    /// Waiting for the device-authorization endpoint's answer.
    StartingFlow,
    /// Polling the token endpoint until the user approves, a definitive
    /// answer arrives, or the deadline passes.
    Polling { device_code: String, interval: u64, deadline: u64 },
    /// A valid session is in place.
    Authorized,
    /// The session could not be established.
    Failed(AuthError),
}

/// The mathematical value of an [`AuthPhase`].
#[verifier::ext_equal]
pub enum PhaseModel {
    Idle,
    LoadingTokens,
    Refreshing,
    StartingFlow,
    Polling { device_code: Seq<char>, interval: u64, deadline: u64 },
    Authorized,
    Failed(ErrorModel),
}

impl View for AuthPhase {
    type V = PhaseModel;

    open spec fn view(&self) -> PhaseModel {
        match self {
            AuthPhase::Idle => PhaseModel::Idle,
            AuthPhase::LoadingTokens => PhaseModel::LoadingTokens,
            AuthPhase::Refreshing => PhaseModel::Refreshing,
            AuthPhase::StartingFlow => PhaseModel::StartingFlow,
            AuthPhase::Polling { device_code, interval, deadline } => PhaseModel::Polling {
                device_code: device_code@,
                interval: *interval,
                deadline: *deadline,
            },
            AuthPhase::Authorized => PhaseModel::Authorized,
            AuthPhase::Failed(e) => PhaseModel::Failed(e@),
        }
    }
}

/// What the transport reports to the machine.
#[derive(Debug, PartialEq)]
pub enum AuthEvent {
    /// A poll tick wants a valid session.
    Tick,
    /// The persisted token record was read; absent when there is none.
    TokensLoaded(Option<AuthTokensResponse>),
    /// The token endpoint's answer to the refresh; absent on transport or
    /// decode failure, or a non-success status.
    RefreshResponse(Option<AuthTokensResponse>),
    /// The device-authorization endpoint's answer; absent on any failure.
    StartResponse(Option<AuthStartResponse>),
    /// The sleep between polls is over (or polling may begin).
    Woke,
    /// The token endpoint answered one poll.
    PollResponse(PollEvent),
}

/// The mathematical value of an [`AuthEvent`].
#[verifier::ext_equal]
pub enum EventModel {
    Tick,
    TokensLoaded(Option<TokensModel>),
    RefreshResponse(Option<TokensModel>),
    StartResponse(Option<StartModel>),
    Woke,
    PollResponse(PollModel),
}

impl View for AuthEvent {
    type V = EventModel;

    open spec fn view(&self) -> EventModel {
        match self {
            AuthEvent::Tick => EventModel::Tick,
            AuthEvent::TokensLoaded(Some(t)) => EventModel::TokensLoaded(Some(t@)),
            AuthEvent::TokensLoaded(None) => EventModel::TokensLoaded(None),
            AuthEvent::RefreshResponse(Some(t)) => EventModel::RefreshResponse(Some(t@)),
            AuthEvent::RefreshResponse(None) => EventModel::RefreshResponse(None),
            AuthEvent::StartResponse(Some(s)) => EventModel::StartResponse(Some(s@)),
            AuthEvent::StartResponse(None) => EventModel::StartResponse(None),
            AuthEvent::Woke => EventModel::Woke,
            AuthEvent::PollResponse(p) => EventModel::PollResponse(p@),
        }
    }
}

/// What the machine asks the transport to do next.
#[derive(Debug, PartialEq)]
pub enum AuthAction {
    /// Read the persisted token record and answer with `TokensLoaded`.
    ReadTokenStore,
    /// POST the refresh form and answer with `RefreshResponse`.
    SendRefresh(FormRequest),
    /// POST the device-authorization form and answer with `StartResponse`.
    SendDeviceStart(FormRequest),
    /// Surface the verification URL to the operator.
    ShowVerification(String),
    /// POST the poll form and answer with `PollResponse`.
    SendDevicePoll(FormRequest),
    /// Sleep this many seconds, then answer with `Woke`.
    SleepSeconds(u64),
    /// Overwrite the persisted token record with this pair.
    PersistTokens(AuthTokensResponse),
}

/// The mathematical value of an [`AuthAction`].
#[verifier::ext_equal]
pub enum ActionModel {
    ReadTokenStore,
    SendRefresh(ReqModel),
    SendDeviceStart(ReqModel),
    ShowVerification(Seq<char>),
    SendDevicePoll(ReqModel),
    SleepSeconds(u64),
    PersistTokens(TokensModel),
}

impl View for AuthAction {
    type V = ActionModel;

    open spec fn view(&self) -> ActionModel {
        match self {
            AuthAction::ReadTokenStore => ActionModel::ReadTokenStore,
            AuthAction::SendRefresh(r) => ActionModel::SendRefresh(r@),
            AuthAction::SendDeviceStart(r) => ActionModel::SendDeviceStart(r@),
            AuthAction::ShowVerification(s) => ActionModel::ShowVerification(s@),
            AuthAction::SendDevicePoll(r) => ActionModel::SendDevicePoll(r@),
            AuthAction::SleepSeconds(n) => ActionModel::SleepSeconds(*n),
            AuthAction::PersistTokens(t) => ActionModel::PersistTokens(t@),
        }
    }
}

/// The views of a sequence of actions.
pub open spec fn actions_view(v: Seq<AuthAction>) -> Seq<ActionModel> {
    v.map_values(|a: AuthAction| a@)
}

/// The views of a timestamped event trace.
pub open spec fn events_view(v: Seq<(u64, AuthEvent)>) -> Seq<(u64, EventModel)> {
    v.map_values(|p: (u64, AuthEvent)| (p.0, p.1@))
}

/// The token endpoint.
pub open spec fn spec_token_url() -> Seq<char> {
    "https://login.tado.com/oauth2/token"@
}

/// The device-authorization endpoint.
pub open spec fn spec_device_auth_url() -> Seq<char> {
    "https://login.tado.com/oauth2/device_authorize"@
}

/// The error body that means the user has not finished logging in yet.
pub open spec fn spec_pending_message() -> Seq<char> {
    "authorization_pending"@
}

/// The refresh form: the client identifier, the refresh grant, and the
/// current refresh token, posted to the token endpoint.
pub open spec fn spec_refresh_request(c: ClientModel) -> ReqModel {
    ReqModel {
        url: spec_token_url(),
        params: seq![
            ("client_id"@, c.client_id),
            ("grant_type"@, "refresh_token"@),
            ("refresh_token"@, c.tokens.refresh_token),
        ],
    }
}

/// The device-flow start form: the client identifier and the offline-access
/// scope, posted to the device-authorization endpoint.
pub open spec fn spec_start_request(c: ClientModel) -> ReqModel {
    ReqModel {
        url: spec_device_auth_url(),
        params: seq![("client_id"@, c.client_id), ("scope"@, "offline_access"@)],
    }
}

/// The poll form: the client identifier, the device code of the running
/// flow, and the device-code grant, posted to the token endpoint.
pub open spec fn spec_poll_request(c: ClientModel, device_code: Seq<char>) -> ReqModel {
    ReqModel {
        url: spec_token_url(),
        params: seq![
            ("client_id"@, c.client_id),
            ("device_code"@, device_code),
            ("grant_type"@, "urn:ietf:params:oauth:grant-type:device_code"@),
        ],
    }
}

/// A step's outcome: the client afterwards, the next phase, and the actions
/// handed to the transport, in order.
#[verifier::ext_equal]
pub struct StepModel {
    pub client: ClientModel,
    pub phase: PhaseModel,
    pub actions: Seq<ActionModel>,
}

/// The refresh guard: before the refresh deadline the session is good as it
/// stands and nothing is sent; from the deadline on, a refresh is posted.
pub open spec fn spec_guard(c: ClientModel, now: u64) -> StepModel {
    if now < c.tokens_refresh_by {
        StepModel { client: c, phase: PhaseModel::Authorized, actions: Seq::empty() }
    } else {
        StepModel {
            client: c,
            phase: PhaseModel::Refreshing,
            actions: seq![ActionModel::SendRefresh(spec_refresh_request(c))],
        }
    }
}

/// One transition of the session machine. Every arm mirrors one decision of
/// the session flow: consult the store once, skip the network before the
/// refresh deadline, refresh, fall back to the device flow when the refresh
/// fails, classify each poll answer, and time the flow out at its deadline.
/// An event that does not belong to the phase changes nothing.
pub open spec fn step_model(
    c: ClientModel,
    phase: PhaseModel,
    event: EventModel,
    now: u64,
) -> StepModel {
    match (phase, event) {
        (PhaseModel::Idle, EventModel::Tick) => {
            if !c.tokens_loaded {
                StepModel {
                    client: c,
                    phase: PhaseModel::LoadingTokens,
                    actions: seq![ActionModel::ReadTokenStore],
                }
            } else {
                spec_guard(c, now)
            }
        },
        (PhaseModel::LoadingTokens, EventModel::TokensLoaded(stored)) => spec_guard(
            c.with_loaded(stored),
            now,
        ),
        (PhaseModel::Refreshing, EventModel::RefreshResponse(resp)) => match resp {
            Some(t) => StepModel {
                client: c.with_tokens(t, now),
                phase: PhaseModel::Authorized,
                actions: seq![ActionModel::PersistTokens(t)],
            },
            None => StepModel {
                client: c,
                phase: PhaseModel::StartingFlow,
                actions: seq![ActionModel::SendDeviceStart(spec_start_request(c))],
            },
        },
        (PhaseModel::StartingFlow, EventModel::StartResponse(resp)) => match resp {
            Some(s) => StepModel {
                client: c,
                phase: PhaseModel::Polling {
                    device_code: s.device_code,
                    interval: s.interval,
                    deadline: spec_saturating_add(now, s.expires_in),
                },
                actions: seq![ActionModel::ShowVerification(s.verification_uri_complete)],
            },
            None => StepModel {
                client: c,
                phase: PhaseModel::Failed(ErrorModel::Transport),
                actions: Seq::empty(),
            },
        },
        (PhaseModel::Polling { device_code, interval, deadline }, EventModel::Woke) => {
            if now >= deadline {
                StepModel {
                    client: c,
                    phase: PhaseModel::Failed(ErrorModel::Timeout),
                    actions: Seq::empty(),
                }
            } else {
                StepModel {
                    client: c,
                    phase: PhaseModel::Polling { device_code, interval, deadline },
                    actions: seq![ActionModel::SendDevicePoll(spec_poll_request(c, device_code))],
                }
            }
        },
        (PhaseModel::Polling { device_code, interval, deadline }, EventModel::PollResponse(p)) => {
            match p {
                PollModel::HttpOk(Some(t)) => StepModel {
                    client: c.with_tokens(t, now),
                    phase: PhaseModel::Authorized,
                    actions: seq![ActionModel::PersistTokens(t)],
                },
                PollModel::HttpOk(None) => StepModel {
                    client: c,
                    phase: PhaseModel::Failed(ErrorModel::Transport),
                    actions: Seq::empty(),
                },
                PollModel::HttpBadRequest(Some(err)) => {
                    if err == spec_pending_message() {
                        StepModel {
                            client: c,
                            phase: PhaseModel::Polling { device_code, interval, deadline },
                            actions: seq![ActionModel::SleepSeconds(interval)],
                        }
                    } else {
                        StepModel {
                            client: c,
                            phase: PhaseModel::Failed(ErrorModel::Rejected(err)),
                            actions: Seq::empty(),
                        }
                    }
                },
                PollModel::HttpBadRequest(None) => StepModel {
                    client: c,
                    phase: PhaseModel::Failed(ErrorModel::Transport),
                    actions: Seq::empty(),
                },
                PollModel::HttpOther(status) => StepModel {
                    client: c,
                    phase: PhaseModel::Failed(ErrorModel::UnexpectedStatus(status)),
                    actions: Seq::empty(),
                },
                PollModel::Transport => StepModel {
                    client: c,
                    phase: PhaseModel::Failed(ErrorModel::Transport),
                    actions: Seq::empty(),
                },
            }
        },
        (p, _) => StepModel { client: c, phase: p, actions: Seq::empty() },
    }
}

impl Client {
    /// Builds the refresh form for this client's identifier and refresh
    /// token.
    pub fn refresh_request(&self) -> (r: FormRequest)
        ensures
            r@ == spec_refresh_request(self@),
    {
        let mut params: Vec<(String, String)> = Vec::new();
        params.push(("client_id".to_owned(), self.client_id.clone()));
        params.push(("grant_type".to_owned(), "refresh_token".to_owned()));
        params.push(("refresh_token".to_owned(), self.tokens.refresh_token.clone()));
        let r = FormRequest { url: "https://login.tado.com/oauth2/token".to_owned(), params };
        proof {
            assert(r@.params =~~= spec_refresh_request(self@).params);
            assert(r@ =~~= spec_refresh_request(self@));
        }
        r
    }

    /// Builds the device-flow start form for this client's identifier.
    pub fn start_request(&self) -> (r: FormRequest)
        ensures
            r@ == spec_start_request(self@),
    {
        let mut params: Vec<(String, String)> = Vec::new();
        params.push(("client_id".to_owned(), self.client_id.clone()));
        params.push(("scope".to_owned(), "offline_access".to_owned()));
        let r = FormRequest {
            url: "https://login.tado.com/oauth2/device_authorize".to_owned(),
            params,
        };
        proof {
            assert(r@.params =~~= spec_start_request(self@).params);
            assert(r@ =~~= spec_start_request(self@));
        }
        r
    }

    /// Builds the poll form for this client's identifier and the given
    /// device code.
    pub fn poll_request(&self, device_code: &str) -> (r: FormRequest)
        ensures
            r@ == spec_poll_request(self@, device_code@),
    {
        let mut params: Vec<(String, String)> = Vec::new();
        params.push(("client_id".to_owned(), self.client_id.clone()));
        params.push(("device_code".to_owned(), device_code.to_owned()));
        params.push((
            "grant_type".to_owned(),
            "urn:ietf:params:oauth:grant-type:device_code".to_owned(),
        ));
        let r = FormRequest { url: "https://login.tado.com/oauth2/token".to_owned(), params };
        proof {
            assert(r@.params =~~= spec_poll_request(self@, device_code@).params);
            assert(r@ =~~= spec_poll_request(self@, device_code@));
        }
        r
    }

    /// One transition of the session machine: applies the event to the
    /// client at time `now` and hands back the next phase and the actions
    /// for the transport, exactly as the model transition says.
    pub fn auth_step(&mut self, phase: AuthPhase, event: AuthEvent, now: u64) -> (r: (
        AuthPhase,
        Vec<AuthAction>,
    ))
        ensures
            ({
                let m = step_model(old(self)@, phase@, event@, now);
                &&& final(self)@ == m.client
                &&& r.0@ == m.phase
                &&& actions_view(r.1@) == m.actions
            }),
    {
        let ghost m = step_model(self@, phase@, event@, now);
        match (phase, event) {
            (AuthPhase::Idle, AuthEvent::Tick) => {
                if !self.tokens_loaded {
                    let mut acts: Vec<AuthAction> = Vec::new();
                    acts.push(AuthAction::ReadTokenStore);
                    proof {
                        assert(actions_view(acts@) =~~= m.actions);
                    }
                    (AuthPhase::LoadingTokens, acts)
                } else {
                    self.guard_step(now)
                }
            },
            (AuthPhase::LoadingTokens, AuthEvent::TokensLoaded(stored)) => {
                if let Some(t) = stored {
                    self.tokens = t;
                }
                self.tokens_loaded = true;
                self.guard_step(now)
            },
            (AuthPhase::Refreshing, AuthEvent::RefreshResponse(resp)) => match resp {
                Some(t) => {
                    let persisted = AuthTokensResponse {
                        access_token: t.access_token.clone(),
                        expires_in: t.expires_in,
                        refresh_token: t.refresh_token.clone(),
                    };
                    self.set_tokens(t, now);
                    let mut acts: Vec<AuthAction> = Vec::new();
                    acts.push(AuthAction::PersistTokens(persisted));
                    proof {
                        assert(actions_view(acts@) =~~= m.actions);
                    }
                    (AuthPhase::Authorized, acts)
                },
                None => {
                    let req = self.start_request();
                    let mut acts: Vec<AuthAction> = Vec::new();
                    acts.push(AuthAction::SendDeviceStart(req));
                    proof {
                        assert(actions_view(acts@) =~~= m.actions);
                    }
                    (AuthPhase::StartingFlow, acts)
                },
            },
            (AuthPhase::StartingFlow, AuthEvent::StartResponse(resp)) => match resp {
                Some(start) => {
                    let AuthStartResponse {
                        device_code,
                        expires_in,
                        interval,
                        verification_uri_complete,
                    } = start;
                    let deadline = saturating_add_u64(now, expires_in);
                    let mut acts: Vec<AuthAction> = Vec::new();
                    acts.push(AuthAction::ShowVerification(verification_uri_complete));
                    proof {
                        assert(actions_view(acts@) =~~= m.actions);
                    }
                    (AuthPhase::Polling { device_code, interval, deadline }, acts)
                },
                None => (AuthPhase::Failed(AuthError::Transport), Vec::new()),
            },
            (AuthPhase::Polling { device_code, interval, deadline }, AuthEvent::Woke) => {
                if now >= deadline {
                    (AuthPhase::Failed(AuthError::Timeout), Vec::new())
                } else {
                    let req = self.poll_request(device_code.as_str());
                    let mut acts: Vec<AuthAction> = Vec::new();
                    acts.push(AuthAction::SendDevicePoll(req));
                    proof {
                        assert(actions_view(acts@) =~~= m.actions);
                    }
                    (AuthPhase::Polling { device_code, interval, deadline }, acts)
                }
            },
            (
                AuthPhase::Polling { device_code, interval, deadline },
                AuthEvent::PollResponse(poll),
            ) => match poll {
                PollEvent::HttpOk(Some(t)) => {
                    let persisted = AuthTokensResponse {
                        access_token: t.access_token.clone(),
                        expires_in: t.expires_in,
                        refresh_token: t.refresh_token.clone(),
                    };
                    self.set_tokens(t, now);
                    let mut acts: Vec<AuthAction> = Vec::new();
                    acts.push(AuthAction::PersistTokens(persisted));
                    proof {
                        assert(actions_view(acts@) =~~= m.actions);
                    }
                    (AuthPhase::Authorized, acts)
                },
                PollEvent::HttpOk(None) => (AuthPhase::Failed(AuthError::Transport), Vec::new()),
                PollEvent::HttpBadRequest(Some(err)) => {
                    let pending = "authorization_pending".to_owned();
                    if err.error == pending {
                        let mut acts: Vec<AuthAction> = Vec::new();
                        acts.push(AuthAction::SleepSeconds(interval));
                        proof {
                            assert(actions_view(acts@) =~~= m.actions);
                        }
                        (AuthPhase::Polling { device_code, interval, deadline }, acts)
                    } else {
                        (AuthPhase::Failed(AuthError::Rejected(err.error)), Vec::new())
                    }
                },
                PollEvent::HttpBadRequest(None) => (
                    AuthPhase::Failed(AuthError::Transport),
                    Vec::new(),
                ),
                PollEvent::HttpOther(status) => (
                    AuthPhase::Failed(AuthError::UnexpectedStatus(status)),
                    Vec::new(),
                ),
                PollEvent::Transport => (AuthPhase::Failed(AuthError::Transport), Vec::new()),
            },
            (p, _) => (p, Vec::new()),
        }
    }

    /// The refresh guard as one verified step: authorize without network
    /// before the deadline, else hand out the refresh request.
    fn guard_step(&mut self, now: u64) -> (r: (AuthPhase, Vec<AuthAction>))
        ensures
            ({
                let m = spec_guard(old(self)@, now);
                &&& final(self)@ == m.client
                &&& r.0@ == m.phase
                &&& actions_view(r.1@) == m.actions
            }),
    {
        let ghost m = spec_guard(self@, now);
        if now < self.tokens_refresh_by {
            (AuthPhase::Authorized, Vec::new())
        } else {
            let req = self.refresh_request();
            let mut acts: Vec<AuthAction> = Vec::new();
            acts.push(AuthAction::SendRefresh(req));
            proof {
                assert(actions_view(acts@) =~~= m.actions);
            }
            (AuthPhase::Refreshing, acts)
        }
    }
}

/// Whether the machine is done, one way or the other.
pub open spec fn spec_terminal(p: PhaseModel) -> bool {
    p is Authorized || p is Failed
}

impl AuthPhase {
    /// Whether the machine is done, one way or the other.
    pub fn is_terminal(&self) -> (b: bool)
        ensures
            b == spec_terminal(self@),
    {
        match self {
            AuthPhase::Authorized => true,
            AuthPhase::Failed(_) => true,
            _ => false,
        }
    }
}

/// The machine folded over a timestamped event trace, stopping at the first
/// terminal phase: the client at the end, the final phase, and every action
/// handed out on the way, in order.
pub open spec fn run_model(
    c: ClientModel,
    phase: PhaseModel,
    events: Seq<(u64, EventModel)>,
) -> StepModel
    decreases events.len(),
{
    if events.len() == 0 || spec_terminal(phase) {
        StepModel { client: c, phase, actions: Seq::empty() }
    } else {
        let s = step_model(c, phase, events[0].1, events[0].0);
        let rest = run_model(s.client, s.phase, events.drop_first());
        StepModel { client: rest.client, phase: rest.phase, actions: s.actions + rest.actions }
    }
}

impl Client {
    /// Establishes a session over a trace of transport events: folds the
    /// machine over the trace from the given phase, returning the final
    /// phase and every action the transport was asked to perform. The live
    /// driver feeds events one at a time; this fold is the same computation
    /// over a whole trace.
    pub fn authenticate(&mut self, phase: AuthPhase, events: Vec<(u64, AuthEvent)>) -> (r: (
        AuthPhase,
        Vec<AuthAction>,
    ))
        ensures
            ({
                let m = run_model(old(self)@, phase@, events_view(events@));
                &&& final(self)@ == m.client
                &&& r.0@ == m.phase
                &&& actions_view(r.1@) == m.actions
            }),
    {
        let ghost c0 = self@;
        let ghost phase0 = phase@;
        let ghost events0 = events_view(events@);
        let mut cur = phase;
        let mut actions: Vec<AuthAction> = Vec::new();
        let mut evs = events;
        let mut finished = cur.is_terminal();
        while evs.len() > 0 && !finished
            invariant
                finished == spec_terminal(cur@),
                ({
                    let m0 = run_model(c0, phase0, events0);
                    let mc = run_model(self@, cur@, events_view(evs@));
                    &&& m0.client == mc.client
                    &&& m0.phase == mc.phase
                    &&& m0.actions == actions_view(actions@) + mc.actions
                }),
            decreases evs@.len(),
        {
            let ghost pre_evs = events_view(evs@);
            let (t, ev) = evs.remove(0);
            proof {
                assert(events_view(evs@) =~~= pre_evs.drop_first());
                assert(pre_evs[0] == (t, ev@));
            }
            let (p2, mut acts) = self.auth_step(cur, ev, t);
            cur = p2;
            proof {
                assert(actions_view(actions@ + acts@) =~~= actions_view(actions@) + actions_view(
                    acts@,
                ));
            }
            let ghost pre_actions = actions_view(actions@);
            let ghost step_actions = actions_view(acts@);
            actions.append(&mut acts);
            proof {
                let m0 = run_model(c0, phase0, events0);
                let mc = run_model(self@, cur@, events_view(evs@));
                assert(pre_actions + (step_actions + mc.actions) =~= (pre_actions + step_actions)
                    + mc.actions);
            }
            finished = cur.is_terminal();
        }
        proof {
            let m0 = run_model(c0, phase0, events0);
            assert(m0.actions =~= actions_view(actions@) + Seq::<ActionModel>::empty());
            assert(m0.actions =~= actions_view(actions@));
        }
        (cur, actions)
    }
}

/// Before the refresh deadline, a session check authorizes at once and asks
/// the transport for nothing: no store read, no refresh, no device flow.
pub proof fn lemma_fast_path_no_network(c: ClientModel, now: u64)
    requires
        c.tokens_loaded,
        now < c.tokens_refresh_by,
    ensures
        step_model(c, PhaseModel::Idle, EventModel::Tick, now).client == c,
        step_model(c, PhaseModel::Idle, EventModel::Tick, now).phase == PhaseModel::Authorized,
        step_model(c, PhaseModel::Idle, EventModel::Tick, now).actions == Seq::<
            ActionModel,
        >::empty(),
{
}

/// Two session checks in immediate succession perform at most one network
/// exchange: once tokens with more than the safety margin of validity are
/// set at `now`, a second check at `now` authorizes with no action at all.
pub proof fn lemma_session_check_idempotent(c: ClientModel, t: TokensModel, now: u64)
    requires
        c.tokens_loaded,
        t.expires_in > crate::REFRESH_SAFETY_MARGIN_SECS,
        now + t.expires_in - crate::REFRESH_SAFETY_MARGIN_SECS <= u64::MAX,
    ensures
        ({
            let c2 = c.with_tokens(t, now);
            &&& step_model(c2, PhaseModel::Idle, EventModel::Tick, now).client == c2
            &&& step_model(c2, PhaseModel::Idle, EventModel::Tick, now).phase
                == PhaseModel::Authorized
            &&& step_model(c2, PhaseModel::Idle, EventModel::Tick, now).actions == Seq::<
                ActionModel,
            >::empty()
        }),
{
}

/// The second of two immediately successive session checks is a no-op at the
/// level of a whole run: after tokens with more than the safety margin of
/// validity were set at `now`, a session run at `now` authorizes without
/// asking the transport for anything.
pub proof fn lemma_second_session_run_is_noop(c: ClientModel, t: TokensModel, now: u64)
    requires
        c.tokens_loaded,
        t.expires_in > crate::REFRESH_SAFETY_MARGIN_SECS,
        now + t.expires_in - crate::REFRESH_SAFETY_MARGIN_SECS <= u64::MAX,
    ensures
        ({
            let c2 = c.with_tokens(t, now);
            let m = run_model(c2, PhaseModel::Idle, seq![(now, EventModel::Tick)]);
            &&& m.client == c2
            &&& m.phase == PhaseModel::Authorized
            &&& m.actions == Seq::<ActionModel>::empty()
        }),
{
    lemma_session_check_idempotent(c, t, now);
    let c2 = c.with_tokens(t, now);
    let events = seq![(now, EventModel::Tick)];
    assert(events[0] == (now, EventModel::Tick));
    let s = step_model(c2, PhaseModel::Idle, events[0].1, events[0].0);
    lemma_terminal_absorbs(s.client, s.phase, events.drop_first());
    assert(run_model(c2, PhaseModel::Idle, events).actions =~= Seq::<ActionModel>::empty());
}

/// A failed refresh is absorbed, not surfaced: the machine falls back to
/// starting the device flow instead of failing the session.
pub proof fn lemma_refresh_failure_falls_back(c: ClientModel, now: u64)
    ensures
        step_model(c, PhaseModel::Refreshing, EventModel::RefreshResponse(None), now).client == c,
        step_model(c, PhaseModel::Refreshing, EventModel::RefreshResponse(None), now).phase
            == PhaseModel::StartingFlow,
        step_model(c, PhaseModel::Refreshing, EventModel::RefreshResponse(None), now).actions
            == seq![ActionModel::SendDeviceStart(spec_start_request(c))],
{
}

/// Authorization never leaves the store behind: a step that ends authorized
/// either asked the transport for nothing (a fast path, with nothing new to
/// persist), or replaced the tokens at `now` and asked, in the same step,
/// for exactly that pair to be persisted.
pub proof fn lemma_authorized_persists(
    c: ClientModel,
    phase: PhaseModel,
    event: EventModel,
    now: u64,
)
    ensures
        ({
            let m = step_model(c, phase, event, now);
            m.phase is Authorized ==> {
                ||| m.actions =~= Seq::<ActionModel>::empty()
                ||| (m.client == c.with_tokens(m.client.tokens, now) && m.actions =~= seq![
                    ActionModel::PersistTokens(m.client.tokens),
                ])
            }
        }),
{
}

/// From the deadline on, waking the device flow times it out: the flow fails
/// with a timeout and sends no poll.
pub proof fn lemma_poll_timeout(
    c: ClientModel,
    device_code: Seq<char>,
    interval: u64,
    deadline: u64,
    now: u64,
)
    requires
        now >= deadline,
    ensures
        step_model(
            c,
            PhaseModel::Polling { device_code, interval, deadline },
            EventModel::Woke,
            now,
        ).phase == PhaseModel::Failed(ErrorModel::Timeout),
        step_model(
            c,
            PhaseModel::Polling { device_code, interval, deadline },
            EventModel::Woke,
            now,
        ).actions == Seq::<ActionModel>::empty(),
{
}

/// A finished flow stays finished: from a terminal phase, no trace of
/// further events changes the client or produces any action.
pub proof fn lemma_terminal_absorbs(
    c: ClientModel,
    phase: PhaseModel,
    events: Seq<(u64, EventModel)>,
)
    requires
        spec_terminal(phase),
    ensures
        run_model(c, phase, events).client == c,
        run_model(c, phase, events).phase == phase,
        run_model(c, phase, events).actions == Seq::<ActionModel>::empty(),
{
}

/// Once the polling deadline has passed, the whole remaining run issues no
/// further poll: the next wake times the flow out and every event after it
/// is absorbed.
pub proof fn lemma_timeout_stops_polling(
    c: ClientModel,
    device_code: Seq<char>,
    interval: u64,
    deadline: u64,
    now: u64,
    rest: Seq<(u64, EventModel)>,
)
    requires
        now >= deadline,
    ensures
        ({
            let events = seq![(now, EventModel::Woke)] + rest;
            let out = run_model(c, PhaseModel::Polling { device_code, interval, deadline }, events);
            &&& out.client == c
            &&& out.phase == PhaseModel::Failed(ErrorModel::Timeout)
            &&& out.actions == Seq::<ActionModel>::empty()
        }),
{
    let events = seq![(now, EventModel::Woke)] + rest;
    let phase = PhaseModel::Polling { device_code, interval, deadline };
    assert(events[0] == (now, EventModel::Woke));
    let s = step_model(c, phase, events[0].1, events[0].0);
    assert(s.phase == PhaseModel::Failed(ErrorModel::Timeout));
    assert(events.drop_first() =~= rest);
    lemma_terminal_absorbs(s.client, s.phase, rest);
    assert(run_model(c, phase, events).actions =~= Seq::<ActionModel>::empty());
}

} // verus!
