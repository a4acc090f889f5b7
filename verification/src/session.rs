//! The life of a token, step by step: whether the stored tokens will do,
//! whether they are renewed in silence, and when the operator has to log
//! in again.
//!
//! A [`Session`] decides and the caller acts. Each [`Request`] names one
//! thing for the caller to do: read or write the token directory, send a
//! request to the identity provider, show a code to the operator, wait.
//! The caller answers with a [`Reply`], and the session says what comes
//! next, until it is [`Request::Finish`].

use crate::auth0::device_code_form;
use crate::auth0::login_form;
use crate::auth0::refresh_form;
use crate::auth0::ConfigFault;
use crate::claims::first_failure;
use crate::claims::satisfies;
use crate::claims::Claims;
use crate::decode::lenient_claims;
use crate::error::AuthError;
use crate::error::AuthErrorView;
use crate::openid::device_code_in;
use crate::openid::discovery_in;
use crate::openid::or_empty;
use crate::openid::poll_interval;
use crate::openid::poll_of;
use crate::openid::tokens_in;
use crate::openid::verification_target;
use crate::openid::AccessTokenResponse;
use crate::openid::DeviceCodeResponse;
use crate::openid::DeviceCodeView;
use crate::openid::DiscoveryView;
use crate::openid::OpenIdDiscoveryDocument;
use crate::openid::Poll;
use crate::openid::TokensView;
use crate::string_map::put_all;
use crate::string_map::Entries;
use crate::string_map::StringMap;
use crate::token_repository::acr_form;
use crate::token_repository::nothing_stored;
use crate::token_repository::refresh_due;
use crate::token_repository::scope_text;
use crate::token_repository::Moment;
use crate::token_repository::RepositoryView;
use crate::token_repository::StoredTokens;
use crate::token_repository::StoredView;
use crate::token_repository::TokenRepository;
use crate::token_repository::TryReason;
use crate::token_repository::TryReasonView;
use vstd::prelude::*;

verus! {

/// What the caller knows of the world when a session begins.
#[derive(Debug)]
pub struct Environment {
    /// The time.
    pub now: Moment,
    /// Whether an operator is there to approve a login.
    pub interactive: bool,
    /// The command line, for the advice to run it again.
    pub command: String,
}

/// What an [`Environment`] holds.
pub struct EnvironmentView {
    pub now: Moment,
    pub interactive: bool,
    pub command: Seq<char>,
}

impl View for Environment {
    type V = EnvironmentView;

    open spec fn view(&self) -> EnvironmentView {
        EnvironmentView { now: self.now, interactive: self.interactive, command: self.command@ }
    }
}

/// What a session is to achieve.
#[derive(Clone, Copy, Debug, PartialEq, Eq, Structural)]
pub enum Goal {
    /// Tokens that will do, renewed in silence where the stored ones expire.
    Refresh,
    /// A login, by way of a refresh unless the repository forces one.
    Login,
    /// A refresh, and a forced login where the refresh fails.
    RefreshOrLogin,
}

/// The procedure whose end the session works towards.
#[derive(Clone, Copy, Debug, PartialEq, Eq, Structural)]
pub enum Stage {
    Refresh,
    Login,
}

/// What the caller is asked to do.
#[derive(Debug)]
pub enum Request {
    /// Read the tokens that the directory holds.
    ReadStore,
    /// Delete the token directory and make it anew.
    ClearStore,
    /// Fetch the document at `url`.
    Get { url: String },
    /// Post `form` to `url`.
    Post { url: String, form: StringMap },
    /// Show the operator the code, wait for the return key, and open `url`
    /// in a browser.
    Prompt { user_code: String, host: String, url: String },
    /// Let `seconds` pass.
    Wait { seconds: u64 },
    /// Write the tokens that the bundle holds, each to its file.
    Write { tokens: AccessTokenResponse },
    /// Nothing more: the session has ended.
    Finish { outcome: Result<(), AuthError> },
}

/// What a [`Request`] holds.
pub enum RequestView {
    ReadStore,
    ClearStore,
    Get { url: Seq<char> },
    Post { url: Seq<char>, form: Entries },
    Prompt { user_code: Seq<char>, host: Seq<char>, url: Seq<char> },
    Wait { seconds: u64 },
    Write { tokens: TokensView },
    Finish { outcome: Result<(), AuthErrorView> },
}

impl View for Request {
    type V = RequestView;

    open spec fn view(&self) -> RequestView {
        match self {
            Request::ReadStore => RequestView::ReadStore,
            Request::ClearStore => RequestView::ClearStore,
            Request::Get { url } => RequestView::Get { url: url@ },
            Request::Post { url, form } => RequestView::Post { url: url@, form: form@ },
            Request::Prompt { user_code, host, url } => RequestView::Prompt {
                user_code: user_code@,
                host: host@,
                url: url@,
            },
            Request::Wait { seconds } => RequestView::Wait { seconds: *seconds },
            Request::Write { tokens } => RequestView::Write { tokens: tokens@ },
            Request::Finish { outcome } => RequestView::Finish {
                outcome: match outcome {
                    Ok(_) => Ok(()),
                    Err(e) => Err(e@),
                },
            },
        }
    }
}

impl RequestView {
    /// Whether the request goes out to the identity provider.
    pub open spec fn is_network(self) -> bool {
        self is Get || self is Post
    }
}

/// What the caller answers.
#[derive(Debug)]
pub enum Reply {
    /// The tokens that the directory holds.
    Stored(StoredTokens),
    /// The body of the provider's answer.
    Body(String),
    /// It is done.
    Done,
    /// It could not be done.
    Failed(String),
}

/// What a [`Reply`] holds.
pub enum ReplyView {
    Stored(StoredView),
    Body(Seq<char>),
    Done,
    Failed(Seq<char>),
}

impl View for Reply {
    type V = ReplyView;

    open spec fn view(&self) -> ReplyView {
        match self {
            Reply::Stored(stored) => ReplyView::Stored(stored@),
            Reply::Body(body) => ReplyView::Body(body@),
            Reply::Done => ReplyView::Done,
            Reply::Failed(message) => ReplyView::Failed(message@),
        }
    }
}

/// What a session waits for.
#[derive(Debug)]
pub enum Phase {
    /// The stored tokens, to see whether they will do.
    Checking,
    /// The discovery document, on the way to the refresh grant.
    RefreshDiscovery { fallback: bool, stored: StoredTokens },
    /// The answer to the refresh grant.
    Refreshing { fallback: bool },
    /// The clearing of the directory, before a forced login.
    Clearing,
    /// The discovery document, on the way to a login.
    LoginDiscovery,
    /// The stored tokens, for the scopes that were granted before.
    LoginScopes { discovery: OpenIdDiscoveryDocument },
    /// The device code.
    RequestingCode { discovery: OpenIdDiscoveryDocument },
    /// The operator, who is shown the code.
    Prompting { discovery: OpenIdDiscoveryDocument, device: DeviceCodeResponse },
    /// The interval between two polls.
    Waiting { discovery: OpenIdDiscoveryDocument, device: DeviceCodeResponse, seconds: u64 },
    /// The answer to a poll.
    Polling { discovery: OpenIdDiscoveryDocument, device: DeviceCodeResponse, seconds: u64 },
    /// The writing of the tokens.
    Writing,
    /// The stored tokens, read again after a refresh that is part of a login.
    Rereading,
    /// Nothing: the session has ended.
    Finished,
}

/// What a [`Phase`] holds.
pub enum PhaseView {
    Checking,
    RefreshDiscovery { fallback: bool, stored: StoredView },
    Refreshing { fallback: bool },
    Clearing,
    LoginDiscovery,
    LoginScopes { discovery: DiscoveryView },
    RequestingCode { discovery: DiscoveryView },
    Prompting { discovery: DiscoveryView, device: DeviceCodeView },
    Waiting { discovery: DiscoveryView, device: DeviceCodeView, seconds: u64 },
    Polling { discovery: DiscoveryView, device: DeviceCodeView, seconds: u64 },
    Writing,
    Rereading,
    Finished,
}

impl View for Phase {
    type V = PhaseView;

    open spec fn view(&self) -> PhaseView {
        match self {
            Phase::Checking => PhaseView::Checking,
            Phase::RefreshDiscovery { fallback, stored } => PhaseView::RefreshDiscovery {
                fallback: *fallback,
                stored: stored@,
            },
            Phase::Refreshing { fallback } => PhaseView::Refreshing { fallback: *fallback },
            Phase::Clearing => PhaseView::Clearing,
            Phase::LoginDiscovery => PhaseView::LoginDiscovery,
            Phase::LoginScopes { discovery } => PhaseView::LoginScopes { discovery: discovery@ },
            Phase::RequestingCode { discovery } => PhaseView::RequestingCode {
                discovery: discovery@,
            },
            Phase::Prompting { discovery, device } => PhaseView::Prompting {
                discovery: discovery@,
                device: device@,
            },
            Phase::Waiting { discovery, device, seconds } => PhaseView::Waiting {
                discovery: discovery@,
                device: device@,
                seconds: *seconds,
            },
            Phase::Polling { discovery, device, seconds } => PhaseView::Polling {
                discovery: discovery@,
                device: device@,
                seconds: *seconds,
            },
            Phase::Writing => PhaseView::Writing,
            Phase::Rereading => PhaseView::Rereading,
            Phase::Finished => PhaseView::Finished,
        }
    }
}

/// What a [`Session`] holds.
pub struct SessionView {
    pub repository: RepositoryView,
    pub reason: TryReasonView,
    pub environment: EnvironmentView,
    /// Whether a refresh that ends well is followed by the rest of a login.
    pub then_login: bool,
    /// Whether a refresh that fails is followed by a forced login.
    pub or_login: bool,
    pub stage: Stage,
    pub phase: PhaseView,
}

/// A session and the request that it makes.
pub type Step = (SessionView, RequestView);

/// The host of a URL: the outer `None` says that `url::Url::parse` refuses
/// the text, the inner one that the URL has no host.
pub uninterp spec fn url_host(text: Seq<char>) -> Option<Option<Seq<char>>>;

/// `url::Url::parse` reads the text as a URL; `Url::host` hands out its
/// host, if it has one, which is written as it stands in a URL.
#[verifier::external_body]
fn host_of(text: &str) -> (r: Option<Option<String>>)
    ensures
        r.deep_view() == url_host(text@),
{
    url::Url::parse(text).ok().map(|u| u.host().map(|h| h.to_string()))
}

/// The session ends.
pub open spec fn finished(s: SessionView, outcome: Result<(), AuthErrorView>) -> Step {
    (SessionView { phase: PhaseView::Finished, ..s }, RequestView::Finish { outcome })
}

/// Something went wrong for good. A refresh that may turn into a login
/// does so now, as a forced one; else the session ends with the error.
pub open spec fn failed(s: SessionView, error: AuthErrorView) -> Step {
    if s.stage == Stage::Refresh && s.or_login {
        (
            SessionView {
                repository: RepositoryView { force: true, ..s.repository },
                then_login: false,
                or_login: false,
                stage: Stage::Login,
                phase: PhaseView::Clearing,
                ..s
            },
            RequestView::ClearStore,
        )
    } else {
        finished(s, Err(error))
    }
}

/// The interactive login begins: not without an operator, and not
/// without knowing where the provider is.
pub open spec fn begin_login(s: SessionView) -> Step {
    if !s.environment.interactive {
        failed(s, AuthErrorView::NonInteractiveSession { command: s.environment.command })
    } else {
        match s.repository.auth_n.discovery_uri {
            None => failed(s, AuthErrorView::Config(ConfigFault::MissingDiscoveryUri)),
            Some(url) => (
                SessionView { phase: PhaseView::LoginDiscovery, ..s },
                RequestView::Get { url },
            ),
        }
    }
}

/// The refresh grant failed: where the tokens were merely due, the
/// operator logs in instead.
pub open spec fn refresh_failed(s: SessionView, error: AuthErrorView, fallback: bool) -> Step {
    if fallback {
        begin_login(s)
    } else {
        failed(s, error)
    }
}

/// The refresh grant begins.
pub open spec fn begin_refresh(s: SessionView, stored: StoredView, fallback: bool) -> Step {
    if stored.refresh_token is None {
        refresh_failed(s, AuthErrorView::MissingRefreshToken, fallback)
    } else {
        match s.repository.auth_n.discovery_uri {
            None => refresh_failed(
                s,
                AuthErrorView::Config(ConfigFault::MissingDiscoveryUri),
                fallback,
            ),
            Some(url) => (
                SessionView { phase: PhaseView::RefreshDiscovery { fallback, stored }, ..s },
                RequestView::Get { url },
            ),
        }
    }
}

/// A bundle is there: its claims are held against the desired ones, and
/// only a bundle that satisfies them is written.
pub open spec fn conclude(s: SessionView, tokens: TokensView) -> Step {
    match first_failure(lenient_claims(tokens.id_token), s.repository.desired_claims) {
        Some(e) => failed(s, AuthErrorView::ClaimAssertionFailed(e)),
        None => (SessionView { phase: PhaseView::Writing, ..s }, RequestView::Write { tokens }),
    }
}

/// The stored tokens have been read: they are renewed where the
/// repository forces it or where they are due, and else they will do.
pub open spec fn checked(s: SessionView, stored: StoredView) -> Step {
    match refresh_due(stored, s.environment.now) {
        Err(e) => failed(s, e),
        Ok(due) => if s.repository.force {
            begin_refresh(s, stored, false)
        } else if due {
            begin_refresh(s, stored, true)
        } else {
            conclude(s, stored.bundle())
        },
    }
}

/// The form of the refresh grant, with the hints on the authentication
/// context.
pub open spec fn refresh_request_form(
    repository: RepositoryView,
    stored: StoredView,
    refresh_token: Seq<char>,
) -> Entries {
    put_all(refresh_form(repository.auth_n, refresh_token), acr_form(repository, stored))
}

/// The discovery document for the refresh grant has come.
pub open spec fn refresh_discovered(
    s: SessionView,
    fallback: bool,
    stored: StoredView,
    body: Seq<char>,
) -> Step {
    match (stored.refresh_token, discovery_in(body)) {
        (None, _) => refresh_failed(s, AuthErrorView::MissingRefreshToken, fallback),
        (Some(_), None) => refresh_failed(s, AuthErrorView::MalformedResponse, fallback),
        (Some(refresh_token), Some(discovery)) => if s.repository.auth_n.client_id is None {
            refresh_failed(s, AuthErrorView::Config(ConfigFault::MissingClientId), fallback)
        } else {
            (
                SessionView { phase: PhaseView::Refreshing { fallback }, ..s },
                RequestView::Post {
                    url: discovery.token_endpoint,
                    form: refresh_request_form(s.repository, stored, refresh_token),
                },
            )
        },
    }
}

/// The answer to the refresh grant has come.
pub open spec fn refreshed(s: SessionView, fallback: bool, body: Seq<char>) -> Step {
    match tokens_in(body) {
        None => refresh_failed(s, AuthErrorView::MalformedResponse, fallback),
        Some(tokens) => match tokens.error {
            Some(error) => refresh_failed(
                s,
                AuthErrorView::RefreshFailed {
                    error,
                    description: or_empty(tokens.error_description),
                },
                fallback,
            ),
            None => conclude(s, tokens),
        },
    }
}

/// The discovery document for the login has come.
pub open spec fn login_discovered(s: SessionView, body: Seq<char>) -> Step {
    match discovery_in(body) {
        None => failed(s, AuthErrorView::MalformedResponse),
        Some(discovery) => if discovery.device_authorization_endpoint is None {
            failed(s, AuthErrorView::Config(ConfigFault::MissingDeviceAuthorizationEndpoint))
        } else {
            (
                SessionView { phase: PhaseView::LoginScopes { discovery }, ..s },
                RequestView::ReadStore,
            )
        },
    }
}

/// The device code is asked for, with the scopes that were granted before
/// among those asked for now.
pub open spec fn request_code(s: SessionView, discovery: DiscoveryView, stored: StoredView)
    -> Step {
    match discovery.device_authorization_endpoint {
        None => failed(
            s,
            AuthErrorView::Config(ConfigFault::MissingDeviceAuthorizationEndpoint),
        ),
        Some(url) => if s.repository.auth_n.client_id is None {
            failed(s, AuthErrorView::Config(ConfigFault::MissingClientId))
        } else {
            (
                SessionView { phase: PhaseView::RequestingCode { discovery }, ..s },
                RequestView::Post {
                    url,
                    form: login_form(s.repository.auth_n, scope_text(s.repository, stored)),
                },
            )
        },
    }
}

/// The device code has come.
pub open spec fn code_received(s: SessionView, discovery: DiscoveryView, body: Seq<char>) -> Step {
    match device_code_in(body) {
        None => failed(s, AuthErrorView::MalformedResponse),
        Some(device) => match verification_target(device) {
            None => failed(s, AuthErrorView::Config(ConfigFault::MissingVerificationUrl)),
            Some(target) => match url_host(target) {
                Some(Some(host)) => (
                    SessionView { phase: PhaseView::Prompting { discovery, device }, ..s },
                    RequestView::Prompt { user_code: device.user_code, host, url: target },
                ),
                _ => failed(s, AuthErrorView::BadVerificationUrl),
            },
        },
    }
}

/// The operator has seen the code: polling begins, after the interval
/// that the provider asks for.
pub open spec fn prompted(s: SessionView, discovery: DiscoveryView, device: DeviceCodeView)
    -> Step {
    match poll_interval(device) {
        None => failed(s, AuthErrorView::BadInterval),
        Some(seconds) => (
            SessionView { phase: PhaseView::Waiting { discovery, device, seconds }, ..s },
            RequestView::Wait { seconds },
        ),
    }
}

/// The interval has passed: the provider is polled.
pub open spec fn waited(
    s: SessionView,
    discovery: DiscoveryView,
    device: DeviceCodeView,
    seconds: u64,
) -> Step {
    if s.repository.auth_n.client_id is None {
        failed(s, AuthErrorView::Config(ConfigFault::MissingClientId))
    } else {
        (
            SessionView { phase: PhaseView::Polling { discovery, device, seconds }, ..s },
            RequestView::Post {
                url: discovery.token_endpoint,
                form: device_code_form(s.repository.auth_n, device.device_code),
            },
        )
    }
}

/// The answer to a poll has come.
pub open spec fn polled(
    s: SessionView,
    discovery: DiscoveryView,
    device: DeviceCodeView,
    seconds: u64,
    body: Seq<char>,
) -> Step {
    match tokens_in(body) {
        None => failed(s, AuthErrorView::MalformedResponse),
        Some(tokens) => match poll_of(tokens) {
            Poll::Approved => conclude(s, tokens),
            Poll::Pending => (
                SessionView { phase: PhaseView::Waiting { discovery, device, seconds }, ..s },
                RequestView::Wait { seconds },
            ),
            Poll::Expired => failed(s, AuthErrorView::DeviceFlowExpired),
            Poll::Denied => failed(s, AuthErrorView::DeviceFlowDenied),
            Poll::Failed => failed(
                s,
                AuthErrorView::Provider {
                    error: or_empty(tokens.error),
                    description: or_empty(tokens.error_description),
                },
            ),
        },
    }
}

/// The tokens have been written: a refresh that is part of a login goes
/// on to read them again, anything else has reached its end.
pub open spec fn written(s: SessionView) -> Step {
    if s.stage == Stage::Refresh && s.then_login {
        (
            SessionView {
                then_login: false,
                stage: Stage::Login,
                phase: PhaseView::Rereading,
                ..s
            },
            RequestView::ReadStore,
        )
    } else {
        finished(s, Ok(()))
    }
}

/// How a session begins.
pub open spec fn begin(
    repository: RepositoryView,
    reason: TryReasonView,
    environment: EnvironmentView,
    goal: Goal,
) -> Step {
    let forced_login = goal == Goal::Login && repository.force;
    (
        SessionView {
            repository,
            reason,
            environment,
            then_login: goal == Goal::Login && !repository.force,
            or_login: goal == Goal::RefreshOrLogin,
            stage: if forced_login {
                Stage::Login
            } else {
                Stage::Refresh
            },
            phase: if forced_login {
                PhaseView::Clearing
            } else {
                PhaseView::Checking
            },
        },
        if forced_login {
            RequestView::ClearStore
        } else {
            RequestView::ReadStore
        },
    )
}

/// What a session does with a reply.
pub open spec fn next(s: SessionView, reply: ReplyView) -> Step {
    match s.phase {
        PhaseView::Checking => match reply {
            ReplyView::Stored(stored) => checked(s, stored),
            ReplyView::Failed(message) => failed(s, AuthErrorView::Io(message)),
            _ => finished(s, Err(AuthErrorView::Protocol)),
        },
        PhaseView::RefreshDiscovery { fallback, stored } => match reply {
            ReplyView::Body(body) => refresh_discovered(s, fallback, stored, body),
            ReplyView::Failed(message) => refresh_failed(
                s,
                AuthErrorView::Transport(message),
                fallback,
            ),
            _ => finished(s, Err(AuthErrorView::Protocol)),
        },
        PhaseView::Refreshing { fallback } => match reply {
            ReplyView::Body(body) => refreshed(s, fallback, body),
            ReplyView::Failed(message) => refresh_failed(
                s,
                AuthErrorView::Transport(message),
                fallback,
            ),
            _ => finished(s, Err(AuthErrorView::Protocol)),
        },
        PhaseView::Clearing => match reply {
            ReplyView::Done => begin_login(s),
            ReplyView::Failed(message) => failed(s, AuthErrorView::Io(message)),
            _ => finished(s, Err(AuthErrorView::Protocol)),
        },
        PhaseView::LoginDiscovery => match reply {
            ReplyView::Body(body) => login_discovered(s, body),
            ReplyView::Failed(message) => failed(s, AuthErrorView::Transport(message)),
            _ => finished(s, Err(AuthErrorView::Protocol)),
        },
        PhaseView::LoginScopes { discovery } => match reply {
            ReplyView::Stored(stored) => request_code(s, discovery, stored),
            ReplyView::Failed(_) => request_code(s, discovery, nothing_stored()),
            _ => finished(s, Err(AuthErrorView::Protocol)),
        },
        PhaseView::RequestingCode { discovery } => match reply {
            ReplyView::Body(body) => code_received(s, discovery, body),
            ReplyView::Failed(message) => failed(s, AuthErrorView::Transport(message)),
            _ => finished(s, Err(AuthErrorView::Protocol)),
        },
        PhaseView::Prompting { discovery, device } => match reply {
            ReplyView::Done => prompted(s, discovery, device),
            ReplyView::Failed(message) => failed(s, AuthErrorView::Io(message)),
            _ => finished(s, Err(AuthErrorView::Protocol)),
        },
        PhaseView::Waiting { discovery, device, seconds } => match reply {
            ReplyView::Done => waited(s, discovery, device, seconds),
            _ => finished(s, Err(AuthErrorView::Protocol)),
        },
        PhaseView::Polling { discovery, device, seconds } => match reply {
            ReplyView::Body(body) => polled(s, discovery, device, seconds, body),
            ReplyView::Failed(message) => failed(s, AuthErrorView::Transport(message)),
            _ => finished(s, Err(AuthErrorView::Protocol)),
        },
        PhaseView::Writing => match reply {
            ReplyView::Done => written(s),
            ReplyView::Failed(message) => failed(s, AuthErrorView::Io(message)),
            _ => finished(s, Err(AuthErrorView::Protocol)),
        },
        PhaseView::Rereading => match reply {
            ReplyView::Stored(stored) => conclude(s, stored.bundle()),
            ReplyView::Failed(_) => begin_login(s),
            _ => finished(s, Err(AuthErrorView::Protocol)),
        },
        PhaseView::Finished => finished(s, Err(AuthErrorView::Protocol)),
    }
}

/// The decisions on the way to tokens that satisfy the caller.
#[derive(Debug)]
pub struct Session {
    repository: TokenRepository,
    reason: TryReason,
    environment: Environment,
    then_login: bool,
    or_login: bool,
    stage: Stage,
    phase: Phase,
}

impl View for Session {
    type V = SessionView;

    closed spec fn view(&self) -> SessionView {
        SessionView {
            repository: self.repository@,
            reason: self.reason@,
            environment: self.environment@,
            then_login: self.then_login,
            or_login: self.or_login,
            stage: self.stage,
            phase: self.phase@,
        }
    }
}

/// What a session and its request hold.
pub open spec fn step_view(step: (Session, Request)) -> Step {
    (step.0@, step.1@)
}

impl Session {
    /// Begins a session for `goal`. The repository says for whom, with what
    /// scopes and claims, and whether by force.
    pub fn start(
        repository: TokenRepository,
        reason: TryReason,
        environment: Environment,
        goal: Goal,
    ) -> (r: (Session, Request))
        ensures
            step_view(r) == begin(repository@, reason@, environment@, goal),
    {
        let forced_login = goal == Goal::Login && repository.force;
        let then_login = goal == Goal::Login && !repository.force;
        let session = Session {
            repository,
            reason,
            environment,
            then_login,
            or_login: goal == Goal::RefreshOrLogin,
            stage: if forced_login {
                Stage::Login
            } else {
                Stage::Refresh
            },
            phase: if forced_login {
                Phase::Clearing
            } else {
                Phase::Checking
            },
        };
        if forced_login {
            (session, Request::ClearStore)
        } else {
            (session, Request::ReadStore)
        }
    }

    /// The repository of the session. A refresh that has turned into a login
    /// has set its force.
    pub fn repository(&self) -> (r: &TokenRepository)
        ensures
            r@ == self@.repository,
    {
        &self.repository
    }

    /// On whose behalf the session runs.
    pub fn reason(&self) -> (r: &TryReason)
        ensures
            r@ == self@.reason,
    {
        &self.reason
    }

    /// Whether the session has ended.
    pub fn is_finished(&self) -> (r: bool)
        ensures
            r == (self@.phase is Finished),
    {
        match self.phase {
            Phase::Finished => true,
            _ => false,
        }
    }

    fn at(self, phase: Phase) -> (r: Session)
        ensures
            r@ == (SessionView { phase: phase@, ..self@ }),
    {
        Session {
            repository: self.repository,
            reason: self.reason,
            environment: self.environment,
            then_login: self.then_login,
            or_login: self.or_login,
            stage: self.stage,
            phase,
        }
    }

    fn finish(self, outcome: Result<(), AuthError>) -> (r: (Session, Request))
        ensures
            step_view(r) == finished(
                self@,
                match outcome {
                    Ok(_) => Ok(()),
                    Err(e) => Err(e@),
                },
            ),
    {
        (self.at(Phase::Finished), Request::Finish { outcome })
    }

    fn fail(self, error: AuthError) -> (r: (Session, Request))
        ensures
            step_view(r) == failed(self@, error@),
    {
        if self.stage == Stage::Refresh && self.or_login {
            let mut repository = self.repository;
            repository.force();
            (
                Session {
                    repository,
                    reason: self.reason,
                    environment: self.environment,
                    then_login: false,
                    or_login: false,
                    stage: Stage::Login,
                    phase: Phase::Clearing,
                },
                Request::ClearStore,
            )
        } else {
            self.finish(Err(error))
        }
    }

    fn begin_login(self) -> (r: (Session, Request))
        ensures
            step_view(r) == begin_login(self@),
    {
        if !self.environment.interactive {
            let command = self.environment.command.clone();
            return self.fail(AuthError::NonInteractiveSession { command });
        }
        match self.repository.auth_n.discovery_uri.clone() {
            None => self.fail(AuthError::Config(ConfigFault::MissingDiscoveryUri)),
            Some(url) => (self.at(Phase::LoginDiscovery), Request::Get { url }),
        }
    }

    fn refresh_failed(self, error: AuthError, fallback: bool) -> (r: (Session, Request))
        ensures
            step_view(r) == refresh_failed(self@, error@, fallback),
    {
        if fallback {
            self.begin_login()
        } else {
            self.fail(error)
        }
    }

    fn begin_refresh(self, stored: StoredTokens, fallback: bool) -> (r: (Session, Request))
        ensures
            step_view(r) == begin_refresh(self@, stored@, fallback),
    {
        if stored.refresh_token.is_none() {
            return self.refresh_failed(AuthError::MissingRefreshToken, fallback);
        }
        match self.repository.auth_n.discovery_uri.clone() {
            None => self.refresh_failed(
                AuthError::Config(ConfigFault::MissingDiscoveryUri),
                fallback,
            ),
            Some(url) => (
                self.at(Phase::RefreshDiscovery { fallback, stored }),
                Request::Get { url },
            ),
        }
    }

    fn conclude(self, tokens: AccessTokenResponse) -> (r: (Session, Request))
        ensures
            step_view(r) == conclude(self@, tokens@),
    {
        let claims = Claims::of_token(tokens.id_token.as_ref());
        match claims.assert_against(&self.repository.desired_claims) {
            Err(e) => self.fail(AuthError::ClaimAssertionFailed(e)),
            Ok(_) => (self.at(Phase::Writing), Request::Write { tokens }),
        }
    }

    fn checked(self, stored: StoredTokens) -> (r: (Session, Request))
        ensures
            step_view(r) == checked(self@, stored@),
    {
        match self.repository.should_refresh(&stored, self.environment.now) {
            Err(e) => self.fail(e),
            Ok(due) => {
                if self.repository.force {
                    self.begin_refresh(stored, false)
                } else if due {
                    self.begin_refresh(stored, true)
                } else {
                    let tokens = self.repository.read_tokens(&stored);
                    self.conclude(tokens)
                }
            },
        }
    }

    fn refresh_discovered(self, fallback: bool, stored: StoredTokens, body: String) -> (r: (
        Session,
        Request,
    ))
        ensures
            step_view(r) == refresh_discovered(self@, fallback, stored@, body@),
    {
        let refresh_token = match &stored.refresh_token {
            None => {
                return self.refresh_failed(AuthError::MissingRefreshToken, fallback);
            },
            Some(token) => token.clone(),
        };
        let discovery = match OpenIdDiscoveryDocument::parse(body.as_str()) {
            None => {
                return self.refresh_failed(AuthError::MalformedResponse, fallback);
            },
            Some(discovery) => discovery,
        };
        let mut form = match self.repository.auth_n.refresh_form_data(&refresh_token) {
            Err(fault) => {
                return self.refresh_failed(AuthError::Config(fault), fallback);
            },
            Ok(form) => form,
        };
        let mut scratch = self.repository.clone();
        let hints = scratch.acr_values_form_data(&stored);
        form.insert_pairs(&hints);
        (
            self.at(Phase::Refreshing { fallback }),
            Request::Post { url: discovery.token_endpoint, form },
        )
    }

    fn refreshed(self, fallback: bool, body: String) -> (r: (Session, Request))
        ensures
            step_view(r) == refreshed(self@, fallback, body@),
    {
        let tokens = match AccessTokenResponse::parse(body.as_str()) {
            None => {
                return self.refresh_failed(AuthError::MalformedResponse, fallback);
            },
            Some(tokens) => tokens,
        };
        match &tokens.error {
            Some(error) => {
                let description = match &tokens.error_description {
                    Some(d) => d.clone(),
                    None => String::new(),
                };
                let error = error.clone();
                self.refresh_failed(AuthError::RefreshFailed { error, description }, fallback)
            },
            None => self.conclude(tokens),
        }
    }

    fn login_discovered(self, body: String) -> (r: (Session, Request))
        ensures
            step_view(r) == login_discovered(self@, body@),
    {
        match OpenIdDiscoveryDocument::parse(body.as_str()) {
            None => self.fail(AuthError::MalformedResponse),
            Some(discovery) => {
                if discovery.device_authorization_endpoint.is_none() {
                    self.fail(AuthError::Config(ConfigFault::MissingDeviceAuthorizationEndpoint))
                } else {
                    (self.at(Phase::LoginScopes { discovery }), Request::ReadStore)
                }
            },
        }
    }

    fn request_code(self, discovery: OpenIdDiscoveryDocument, stored: StoredTokens) -> (r: (
        Session,
        Request,
    ))
        ensures
            step_view(r) == request_code(self@, discovery@, stored@),
    {
        let url = match &discovery.device_authorization_endpoint {
            None => {
                return self.fail(
                    AuthError::Config(ConfigFault::MissingDeviceAuthorizationEndpoint),
                );
            },
            Some(url) => url.clone(),
        };
        let mut scratch = self.repository.clone();
        let scope = scratch.scope_str(&stored);
        match self.repository.auth_n.login_form_data(&scope) {
            Err(fault) => self.fail(AuthError::Config(fault)),
            Ok(form) => (
                self.at(Phase::RequestingCode { discovery }),
                Request::Post { url, form },
            ),
        }
    }

    fn code_received(self, discovery: OpenIdDiscoveryDocument, body: String) -> (r: (
        Session,
        Request,
    ))
        ensures
            step_view(r) == code_received(self@, discovery@, body@),
    {
        let device = match DeviceCodeResponse::parse(body.as_str()) {
            None => {
                return self.fail(AuthError::MalformedResponse);
            },
            Some(device) => device,
        };
        let url = match device.verification_target() {
            None => {
                return self.fail(AuthError::Config(ConfigFault::MissingVerificationUrl));
            },
            Some(target) => target.clone(),
        };
        match host_of(url.as_str()) {
            Some(Some(host)) => {
                let user_code = device.user_code.clone();
                (
                    self.at(Phase::Prompting { discovery, device }),
                    Request::Prompt { user_code, host, url },
                )
            },
            _ => self.fail(AuthError::BadVerificationUrl),
        }
    }

    fn prompted(self, discovery: OpenIdDiscoveryDocument, device: DeviceCodeResponse) -> (r: (
        Session,
        Request,
    ))
        ensures
            step_view(r) == prompted(self@, discovery@, device@),
    {
        match device.poll_interval() {
            None => self.fail(AuthError::BadInterval),
            Some(seconds) => (
                self.at(Phase::Waiting { discovery, device, seconds }),
                Request::Wait { seconds },
            ),
        }
    }

    fn waited(
        self,
        discovery: OpenIdDiscoveryDocument,
        device: DeviceCodeResponse,
        seconds: u64,
    ) -> (r: (Session, Request))
        ensures
            step_view(r) == waited(self@, discovery@, device@, seconds),
    {
        match self.repository.auth_n.device_code_form_data(&device.device_code) {
            Err(fault) => self.fail(AuthError::Config(fault)),
            Ok(form) => {
                let url = discovery.token_endpoint.clone();
                (self.at(Phase::Polling { discovery, device, seconds }), Request::Post { url, form })
            },
        }
    }

    fn polled(
        self,
        discovery: OpenIdDiscoveryDocument,
        device: DeviceCodeResponse,
        seconds: u64,
        body: String,
    ) -> (r: (Session, Request))
        ensures
            step_view(r) == polled(self@, discovery@, device@, seconds, body@),
    {
        let tokens = match AccessTokenResponse::parse(body.as_str()) {
            None => {
                return self.fail(AuthError::MalformedResponse);
            },
            Some(tokens) => tokens,
        };
        match tokens.poll() {
            Poll::Approved => self.conclude(tokens),
            Poll::Pending => (
                self.at(Phase::Waiting { discovery, device, seconds }),
                Request::Wait { seconds },
            ),
            Poll::Expired => self.fail(AuthError::DeviceFlowExpired),
            Poll::Denied => self.fail(AuthError::DeviceFlowDenied),
            Poll::Failed => {
                let error = match &tokens.error {
                    Some(e) => e.clone(),
                    None => String::new(),
                };
                let description = match &tokens.error_description {
                    Some(d) => d.clone(),
                    None => String::new(),
                };
                self.fail(AuthError::Provider { error, description })
            },
        }
    }

    fn written(self) -> (r: (Session, Request))
        ensures
            step_view(r) == written(self@),
    {
        if self.stage == Stage::Refresh && self.then_login {
            (
                Session {
                    repository: self.repository,
                    reason: self.reason,
                    environment: self.environment,
                    then_login: false,
                    or_login: self.or_login,
                    stage: Stage::Login,
                    phase: Phase::Rereading,
                },
                Request::ReadStore,
            )
        } else {
            self.finish(Ok(()))
        }
    }

    /// Takes the reply to the last request and says what comes next.
    pub fn advance(self, reply: Reply) -> (r: (Session, Request))
        ensures
            step_view(r) == next(self@, reply@),
    {
        let ghost before = self@;
        let Session { repository, reason, environment, then_login, or_login, stage, phase } = self;
        let rest = Session {
            repository,
            reason,
            environment,
            then_login,
            or_login,
            stage,
            phase: Phase::Finished,
        };
        assert(rest@ == (SessionView { phase: PhaseView::Finished, ..before }));
        match phase {
            Phase::Checking => match reply {
                Reply::Stored(stored) => rest.checked(stored),
                Reply::Failed(message) => rest.fail(AuthError::Io(message)),
                _ => rest.finish(Err(AuthError::Protocol)),
            },
            Phase::RefreshDiscovery { fallback, stored } => match reply {
                Reply::Body(body) => rest.refresh_discovered(fallback, stored, body),
                Reply::Failed(message) => rest.refresh_failed(
                    AuthError::Transport(message),
                    fallback,
                ),
                _ => rest.finish(Err(AuthError::Protocol)),
            },
            Phase::Refreshing { fallback } => match reply {
                Reply::Body(body) => rest.refreshed(fallback, body),
                Reply::Failed(message) => rest.refresh_failed(
                    AuthError::Transport(message),
                    fallback,
                ),
                _ => rest.finish(Err(AuthError::Protocol)),
            },
            Phase::Clearing => match reply {
                Reply::Done => rest.begin_login(),
                Reply::Failed(message) => rest.fail(AuthError::Io(message)),
                _ => rest.finish(Err(AuthError::Protocol)),
            },
            Phase::LoginDiscovery => match reply {
                Reply::Body(body) => rest.login_discovered(body),
                Reply::Failed(message) => rest.fail(AuthError::Transport(message)),
                _ => rest.finish(Err(AuthError::Protocol)),
            },
            Phase::LoginScopes { discovery } => match reply {
                Reply::Stored(stored) => rest.request_code(discovery, stored),
                Reply::Failed(_) => rest.request_code(discovery, StoredTokens::empty()),
                _ => rest.finish(Err(AuthError::Protocol)),
            },
            Phase::RequestingCode { discovery } => match reply {
                Reply::Body(body) => rest.code_received(discovery, body),
                Reply::Failed(message) => rest.fail(AuthError::Transport(message)),
                _ => rest.finish(Err(AuthError::Protocol)),
            },
            Phase::Prompting { discovery, device } => match reply {
                Reply::Done => rest.prompted(discovery, device),
                Reply::Failed(message) => rest.fail(AuthError::Io(message)),
                _ => rest.finish(Err(AuthError::Protocol)),
            },
            Phase::Waiting { discovery, device, seconds } => match reply {
                Reply::Done => rest.waited(discovery, device, seconds),
                _ => rest.finish(Err(AuthError::Protocol)),
            },
            Phase::Polling { discovery, device, seconds } => match reply {
                Reply::Body(body) => rest.polled(discovery, device, seconds, body),
                Reply::Failed(message) => rest.fail(AuthError::Transport(message)),
                _ => rest.finish(Err(AuthError::Protocol)),
            },
            Phase::Writing => match reply {
                Reply::Done => rest.written(),
                Reply::Failed(message) => rest.fail(AuthError::Io(message)),
                _ => rest.finish(Err(AuthError::Protocol)),
            },
            Phase::Rereading => match reply {
                Reply::Stored(stored) => {
                    let tokens = rest.repository.read_tokens(&stored);
                    rest.conclude(tokens)
                },
                Reply::Failed(_) => rest.begin_login(),
                _ => rest.finish(Err(AuthError::Protocol)),
            },
            Phase::Finished => rest.finish(Err(AuthError::Protocol)),
        }
    }
}

/// Whether a session is in the interactive login.
pub open spec fn in_device_flow(phase: PhaseView) -> bool {
    phase is LoginDiscovery || phase is LoginScopes || phase is RequestingCode || phase is Prompting
        || phase is Waiting || phase is Polling
}

/// A forced login clears the token directory before anything else. The
/// session has not so much as read what is stored, and out of the clearing
/// no request goes to the provider but by way of the beginning of a login,
/// once the directory is cleared.
pub proof fn law_forced_login_clears_first(
    repository: RepositoryView,
    reason: TryReasonView,
    environment: EnvironmentView,
    reply: ReplyView,
)
    requires
        repository.force,
    ensures
        begin(repository, reason, environment, Goal::Login).1 == RequestView::ClearStore,
        begin(repository, reason, environment, Goal::Login).0.phase == PhaseView::Clearing,
        next(begin(repository, reason, environment, Goal::Login).0, ReplyView::Done)
            == begin_login(begin(repository, reason, environment, Goal::Login).0),
        next(begin(repository, reason, environment, Goal::Login).0, reply).1.is_network()
            ==> reply is Done,
        environment.interactive && repository.auth_n.discovery_uri is Some ==> next(
            begin(repository, reason, environment, Goal::Login).0,
            ReplyView::Done,
        ).1 == (RequestView::Get { url: repository.auth_n.discovery_uri->0 }),
{
}

/// A refresh that turns into a login turns into a forced one, which
/// clears the token directory first.
pub proof fn law_escalation_clears_first(s: SessionView, error: AuthErrorView)
    requires
        s.stage == Stage::Refresh,
        s.or_login,
    ensures
        failed(s, error).1 == RequestView::ClearStore,
        failed(s, error).0.repository.force,
        failed(s, error).0.phase == PhaseView::Clearing,
{
}

/// Tokens that are merely due are renewed with a fallback: where the
/// provider refuses the refresh grant, the session does not end in that
/// error but goes on to the interactive login.
pub proof fn law_refresh_falls_back_to_login(
    s: SessionView,
    stored: StoredView,
    body: Seq<char>,
)
    requires
        !s.repository.force,
        refresh_due(stored, s.environment.now) == Ok::<bool, AuthErrorView>(true),
        tokens_in(body) is Some,
        tokens_in(body)->0.error is Some,
    ensures
        checked(s, stored) == begin_refresh(s, stored, true),
        next(
            SessionView { phase: PhaseView::Refreshing { fallback: true }, ..s },
            ReplyView::Body(body),
        ) == begin_login(s),
        s.environment.interactive && s.repository.auth_n.discovery_uri is Some ==> next(
            SessionView { phase: PhaseView::Refreshing { fallback: true }, ..s },
            ReplyView::Body(body),
        ).1 == (RequestView::Get { url: s.repository.auth_n.discovery_uri->0 }),
{
}

/// A forced refresh has no fallback: where the provider refuses the grant,
/// that is how the refresh ends.
pub proof fn law_forced_refresh_does_not_fall_back(
    s: SessionView,
    stored: StoredView,
    body: Seq<char>,
)
    requires
        s.repository.force,
        refresh_due(stored, s.environment.now) is Ok,
        tokens_in(body) is Some,
        tokens_in(body)->0.error is Some,
    ensures
        checked(s, stored) == begin_refresh(s, stored, false),
        next(
            SessionView { phase: PhaseView::Refreshing { fallback: false }, ..s },
            ReplyView::Body(body),
        ) == failed(
            s,
            AuthErrorView::RefreshFailed {
                error: tokens_in(body)->0.error->0,
                description: or_empty(tokens_in(body)->0.error_description),
            },
        ),
{
}

/// Without an operator the interactive login fails at once, and nothing
/// goes to the provider: the session ends with the error, or, where a
/// refresh may still turn into a forced login, clears the directory and
/// ends with the error then.
pub proof fn law_non_interactive_login_fails_at_once(s: SessionView)
    requires
        !s.environment.interactive,
    ensures
        !begin_login(s).1.is_network(),
        begin_login(s) == failed(
            s,
            AuthErrorView::NonInteractiveSession { command: s.environment.command },
        ),
        !(s.stage == Stage::Refresh && s.or_login) ==> begin_login(s).1 == (RequestView::Finish {
            outcome: Err(AuthErrorView::NonInteractiveSession { command: s.environment.command }),
        }),
        s.stage == Stage::Refresh && s.or_login ==> next(begin_login(s).0, ReplyView::Done).1 == (
        RequestView::Finish {
            outcome: Err(AuthErrorView::NonInteractiveSession { command: s.environment.command }),
        }),
{
}

/// The step keeps a session without an operator out of the interactive
/// login.
pub open spec fn stays_out(step: Step) -> bool {
    &&& !step.0.environment.interactive
    &&& !in_device_flow(step.0.phase)
    &&& !(step.1 is Prompt)
    &&& !(step.1 is Wait)
}

proof fn lemma_failing_stays_out(s: SessionView, error: AuthErrorView, fallback: bool)
    requires
        !s.environment.interactive,
    ensures
        stays_out(failed(s, error)),
        stays_out(begin_login(s)),
        stays_out(refresh_failed(s, error, fallback)),
{
}

proof fn lemma_refreshing_stays_out(s: SessionView, stored: StoredView, fallback: bool)
    requires
        !s.environment.interactive,
    ensures
        stays_out(begin_refresh(s, stored, fallback)),
{
    lemma_failing_stays_out(s, AuthErrorView::MissingRefreshToken, fallback);
    lemma_failing_stays_out(s, AuthErrorView::Config(ConfigFault::MissingDiscoveryUri), fallback);
}

proof fn lemma_concluding_stays_out(s: SessionView, tokens: TokensView)
    requires
        !s.environment.interactive,
    ensures
        stays_out(conclude(s, tokens)),
{
    let failure = first_failure(lenient_claims(tokens.id_token), s.repository.desired_claims);
    if failure is Some {
        lemma_failing_stays_out(s, AuthErrorView::ClaimAssertionFailed(failure->0), false);
    }
}

proof fn lemma_checking_stays_out(s: SessionView, stored: StoredView)
    requires
        !s.environment.interactive,
    ensures
        stays_out(checked(s, stored)),
{
    match refresh_due(stored, s.environment.now) {
        Err(e) => {
            lemma_failing_stays_out(s, e, false);
        },
        Ok(_) => {
            lemma_refreshing_stays_out(s, stored, false);
            lemma_refreshing_stays_out(s, stored, true);
            lemma_concluding_stays_out(s, stored.bundle());
        },
    }
}

proof fn lemma_refresh_answers_stay_out(
    s: SessionView,
    fallback: bool,
    stored: StoredView,
    body: Seq<char>,
)
    requires
        !s.environment.interactive,
    ensures
        stays_out(refresh_discovered(s, fallback, stored, body)),
        stays_out(refreshed(s, fallback, body)),
{
    lemma_failing_stays_out(s, AuthErrorView::MissingRefreshToken, fallback);
    lemma_failing_stays_out(s, AuthErrorView::MalformedResponse, fallback);
    lemma_failing_stays_out(s, AuthErrorView::Config(ConfigFault::MissingClientId), fallback);
    if tokens_in(body) is Some {
        let tokens = tokens_in(body)->0;
        if tokens.error is Some {
            lemma_failing_stays_out(
                s,
                AuthErrorView::RefreshFailed {
                    error: tokens.error->0,
                    description: or_empty(tokens.error_description),
                },
                fallback,
            );
        } else {
            lemma_concluding_stays_out(s, tokens);
        }
    }
}

/// Without an operator a session never enters the interactive login,
/// whatever the replies are.
pub proof fn law_non_interactive_session_stays_out_of_device_flow(s: SessionView, reply: ReplyView)
    requires
        !s.environment.interactive,
        !in_device_flow(s.phase),
    ensures
        stays_out(next(s, reply)),
{
    lemma_failing_stays_out(s, AuthErrorView::Protocol, false);
    match s.phase {
        PhaseView::Checking => {
            match reply {
                ReplyView::Stored(stored) => {
                    lemma_checking_stays_out(s, stored);
                },
                ReplyView::Failed(message) => {
                    lemma_failing_stays_out(s, AuthErrorView::Io(message), false);
                },
                _ => {},
            }
        },
        PhaseView::RefreshDiscovery { fallback, stored } => {
            match reply {
                ReplyView::Body(body) => {
                    lemma_refresh_answers_stay_out(s, fallback, stored, body);
                },
                ReplyView::Failed(message) => {
                    lemma_failing_stays_out(s, AuthErrorView::Transport(message), fallback);
                },
                _ => {},
            }
        },
        PhaseView::Refreshing { fallback } => {
            match reply {
                ReplyView::Body(body) => {
                    lemma_refresh_answers_stay_out(s, fallback, nothing_stored(), body);
                },
                ReplyView::Failed(message) => {
                    lemma_failing_stays_out(s, AuthErrorView::Transport(message), fallback);
                },
                _ => {},
            }
        },
        PhaseView::Clearing => {
            match reply {
                ReplyView::Failed(message) => {
                    lemma_failing_stays_out(s, AuthErrorView::Io(message), false);
                },
                _ => {},
            }
        },
        PhaseView::Writing => {
            match reply {
                ReplyView::Failed(message) => {
                    lemma_failing_stays_out(s, AuthErrorView::Io(message), false);
                },
                _ => {},
            }
        },
        PhaseView::Rereading => {
            match reply {
                ReplyView::Stored(stored) => {
                    lemma_concluding_stays_out(s, stored.bundle());
                },
                _ => {},
            }
        },
        _ => {},
    }
}

/// No session begins in the interactive login.
pub proof fn law_sessions_begin_outside_device_flow(
    repository: RepositoryView,
    reason: TryReasonView,
    environment: EnvironmentView,
    goal: Goal,
)
    ensures
        !in_device_flow(begin(repository, reason, environment, goal).0.phase),
        begin(repository, reason, environment, goal).0.environment == environment,
        begin(repository, reason, environment, goal).0.repository == repository,
{
}

/// The step writes no tokens but such as satisfy the claims that `s`
/// desires, and leaves the desired claims as they are.
pub open spec fn writes_honestly(s: SessionView, step: Step) -> bool {
    &&& step.1 matches RequestView::Write { tokens } ==> satisfies(
        lenient_claims(tokens.id_token),
        s.repository.desired_claims,
    )
    &&& step.0.repository.desired_claims == s.repository.desired_claims
}

proof fn lemma_failing_writes_nothing(s: SessionView, error: AuthErrorView, fallback: bool)
    ensures
        writes_honestly(s, failed(s, error)),
        writes_honestly(s, begin_login(s)),
        writes_honestly(s, refresh_failed(s, error, fallback)),
{
}

proof fn lemma_refreshing_writes_nothing(s: SessionView, stored: StoredView, fallback: bool)
    ensures
        writes_honestly(s, begin_refresh(s, stored, fallback)),
{
    lemma_failing_writes_nothing(s, AuthErrorView::MissingRefreshToken, fallback);
    lemma_failing_writes_nothing(
        s,
        AuthErrorView::Config(ConfigFault::MissingDiscoveryUri),
        fallback,
    );
}

proof fn lemma_concluding_writes_honestly(s: SessionView, tokens: TokensView)
    ensures
        writes_honestly(s, conclude(s, tokens)),
{
    let actual = lenient_claims(tokens.id_token);
    crate::claims::lemma_first_failure(actual, s.repository.desired_claims);
    let failure = first_failure(actual, s.repository.desired_claims);
    if failure is Some {
        lemma_failing_writes_nothing(s, AuthErrorView::ClaimAssertionFailed(failure->0), false);
    }
}

proof fn lemma_checking_writes_honestly(s: SessionView, stored: StoredView)
    ensures
        writes_honestly(s, checked(s, stored)),
{
    match refresh_due(stored, s.environment.now) {
        Err(e) => {
            lemma_failing_writes_nothing(s, e, false);
        },
        Ok(_) => {
            lemma_refreshing_writes_nothing(s, stored, false);
            lemma_refreshing_writes_nothing(s, stored, true);
            lemma_concluding_writes_honestly(s, stored.bundle());
        },
    }
}

proof fn lemma_refresh_answers_write_honestly(
    s: SessionView,
    fallback: bool,
    stored: StoredView,
    body: Seq<char>,
)
    ensures
        writes_honestly(s, refresh_discovered(s, fallback, stored, body)),
        writes_honestly(s, refreshed(s, fallback, body)),
{
    lemma_failing_writes_nothing(s, AuthErrorView::MissingRefreshToken, fallback);
    lemma_failing_writes_nothing(s, AuthErrorView::MalformedResponse, fallback);
    lemma_failing_writes_nothing(s, AuthErrorView::Config(ConfigFault::MissingClientId), fallback);
    if tokens_in(body) is Some {
        let tokens = tokens_in(body)->0;
        if tokens.error is Some {
            lemma_failing_writes_nothing(
                s,
                AuthErrorView::RefreshFailed {
                    error: tokens.error->0,
                    description: or_empty(tokens.error_description),
                },
                fallback,
            );
        } else {
            lemma_concluding_writes_honestly(s, tokens);
        }
    }
}

proof fn lemma_login_answers_write_honestly(
    s: SessionView,
    discovery: DiscoveryView,
    device: DeviceCodeView,
    seconds: u64,
    stored: StoredView,
    body: Seq<char>,
)
    ensures
        writes_honestly(s, login_discovered(s, body)),
        writes_honestly(s, request_code(s, discovery, stored)),
        writes_honestly(s, code_received(s, discovery, body)),
        writes_honestly(s, prompted(s, discovery, device)),
        writes_honestly(s, waited(s, discovery, device, seconds)),
        writes_honestly(s, polled(s, discovery, device, seconds, body)),
{
    lemma_failing_writes_nothing(s, AuthErrorView::MalformedResponse, false);
    lemma_failing_writes_nothing(
        s,
        AuthErrorView::Config(ConfigFault::MissingDeviceAuthorizationEndpoint),
        false,
    );
    lemma_failing_writes_nothing(s, AuthErrorView::Config(ConfigFault::MissingClientId), false);
    lemma_failing_writes_nothing(
        s,
        AuthErrorView::Config(ConfigFault::MissingVerificationUrl),
        false,
    );
    lemma_failing_writes_nothing(s, AuthErrorView::BadVerificationUrl, false);
    lemma_failing_writes_nothing(s, AuthErrorView::BadInterval, false);
    lemma_failing_writes_nothing(s, AuthErrorView::DeviceFlowExpired, false);
    lemma_failing_writes_nothing(s, AuthErrorView::DeviceFlowDenied, false);
    if tokens_in(body) is Some {
        let tokens = tokens_in(body)->0;
        lemma_failing_writes_nothing(
            s,
            AuthErrorView::Provider {
                error: or_empty(tokens.error),
                description: or_empty(tokens.error_description),
            },
            false,
        );
        lemma_concluding_writes_honestly(s, tokens);
    }
}

/// Only tokens whose claims satisfy the desired ones are written: a
/// bundle that fails the assertion is never stored.
pub proof fn law_only_satisfying_tokens_are_written(s: SessionView, reply: ReplyView)
    ensures
        writes_honestly(s, next(s, reply)),
{
    lemma_failing_writes_nothing(s, AuthErrorView::Protocol, false);
    match reply {
        ReplyView::Failed(message) => {
            lemma_failing_writes_nothing(s, AuthErrorView::Io(message), false);
            lemma_failing_writes_nothing(s, AuthErrorView::Transport(message), false);
            lemma_failing_writes_nothing(s, AuthErrorView::Transport(message), true);
        },
        _ => {},
    }
    match s.phase {
        PhaseView::Checking => {
            if let ReplyView::Stored(stored) = reply {
                lemma_checking_writes_honestly(s, stored);
            }
        },
        PhaseView::RefreshDiscovery { fallback, stored } => {
            if let ReplyView::Body(body) = reply {
                lemma_refresh_answers_write_honestly(s, fallback, stored, body);
            }
        },
        PhaseView::Refreshing { fallback } => {
            if let ReplyView::Body(body) = reply {
                lemma_refresh_answers_write_honestly(s, fallback, nothing_stored(), body);
            }
        },
        PhaseView::LoginDiscovery => {
            if let ReplyView::Body(body) = reply {
                let discovery = arbitrary::<DiscoveryView>();
                let device = arbitrary::<DeviceCodeView>();
                lemma_login_answers_write_honestly(s, discovery, device, 0, nothing_stored(), body);
            }
        },
        PhaseView::LoginScopes { discovery } => {
            let device = arbitrary::<DeviceCodeView>();
            let body = Seq::<char>::empty();
            match reply {
                ReplyView::Stored(stored) => {
                    lemma_login_answers_write_honestly(s, discovery, device, 0, stored, body);
                },
                _ => {
                    lemma_login_answers_write_honestly(
                        s,
                        discovery,
                        device,
                        0,
                        nothing_stored(),
                        body,
                    );
                },
            }
        },
        PhaseView::RequestingCode { discovery } => {
            if let ReplyView::Body(body) = reply {
                let device = arbitrary::<DeviceCodeView>();
                lemma_login_answers_write_honestly(s, discovery, device, 0, nothing_stored(), body);
            }
        },
        PhaseView::Prompting { discovery, device } => {
            lemma_login_answers_write_honestly(
                s,
                discovery,
                device,
                0,
                nothing_stored(),
                Seq::empty(),
            );
        },
        PhaseView::Waiting { discovery, device, seconds } => {
            lemma_login_answers_write_honestly(
                s,
                discovery,
                device,
                seconds,
                nothing_stored(),
                Seq::empty(),
            );
        },
        PhaseView::Polling { discovery, device, seconds } => {
            if let ReplyView::Body(body) = reply {
                lemma_login_answers_write_honestly(
                    s,
                    discovery,
                    device,
                    seconds,
                    nothing_stored(),
                    body,
                );
            }
        },
        PhaseView::Rereading => {
            if let ReplyView::Stored(stored) = reply {
                lemma_concluding_writes_honestly(s, stored.bundle());
            }
        },
        _ => {},
    }
}

/// Between two polls lies the interval that the provider asks for: the
/// answer to a poll is never followed by another request to the provider,
/// and where the operator has not decided yet, what follows is the wait.
pub proof fn law_polls_are_an_interval_apart(s: SessionView, reply: ReplyView)
    requires
        s.phase is Polling,
    ensures
        !next(s, reply).1.is_network(),
        reply matches ReplyView::Body(body) && tokens_in(body) matches Some(tokens) && poll_of(tokens)
            == Poll::Pending ==> next(s, reply).1 == (RequestView::Wait {
            seconds: s.phase->Polling_seconds,
        }),
{
}

/// Polling begins only with an interval that is a positive number: a
/// provider that gives none, or zero, or anything else, ends the login
/// before the first poll.
pub proof fn law_no_poll_without_an_interval(
    s: SessionView,
    discovery: DiscoveryView,
    device: DeviceCodeView,
)
    ensures
        poll_interval(device) is None ==> prompted(s, discovery, device) == failed(
            s,
            AuthErrorView::BadInterval,
        ),
        prompted(s, discovery, device).1 matches RequestView::Wait { seconds } ==> seconds > 0
            && poll_interval(device) == Some(seconds),
        !prompted(s, discovery, device).1.is_network(),
{
}

/// A session reports success only when the tokens have been written.
pub proof fn law_success_follows_a_write(s: SessionView, reply: ReplyView)
    ensures
        next(s, reply).1 == (RequestView::Finish { outcome: Ok(()) }) ==> s.phase is Writing
            && reply is Done,
{
}

/// A session that has ended stays ended.
pub proof fn law_finished_is_final(s: SessionView, reply: ReplyView)
    requires
        s.phase is Finished,
    ensures
        next(s, reply).0.phase is Finished,
        next(s, reply).1 is Finish,
{
}

} // verus!
