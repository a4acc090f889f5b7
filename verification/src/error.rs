//! What can go wrong between the request for tokens and their use.

use crate::auth0::ConfigFault;
use crate::claims::ClaimError;
use crate::claims::ClaimErrorView;
use crate::decode::TokenFault;
use vstd::prelude::*;

verus! {

/// Why no token that satisfies the caller could be had.
#[derive(Debug, PartialEq, Eq)]
pub enum AuthError {
    /// The tokens of a login are not all stored.
    NotLoggedIn,
    /// The identity is no member of the organization that was asked for.
    OrganizationNotFound,
    /// The client configuration, or what the provider sent in its place,
    /// lacks something.
    Config(ConfigFault),
    /// A stored token cannot be read.
    Token(TokenFault),
    /// The expiry of a token is a time that cannot be represented.
    ExpiryOutOfRange,
    /// No refresh token is stored.
    MissingRefreshToken,
    /// A request did not get through to the provider.
    Transport(String),
    /// The provider answered with something of another form than expected.
    MalformedResponse,
    /// The provider refused the refresh grant.
    RefreshFailed { error: String, description: String },
    /// The provider ended the device flow with an error of its own.
    Provider { error: String, description: String },
    /// The operator refused the request.
    DeviceFlowDenied,
    /// The device code expired before the operator approved.
    DeviceFlowExpired,
    /// The verification URL is no URL, or has no host.
    BadVerificationUrl,
    /// The provider gave no interval between polls, or one that is no
    /// positive number.
    BadInterval,
    /// The tokens do not carry the claims that were asked for.
    ClaimAssertionFailed(ClaimError),
    /// Nobody is there to approve a login.
    NonInteractiveSession { command: String },
    /// The token directory could not be read or written.
    Io(String),
    /// The driver answered a request with what was not asked for.
    Protocol,
}

/// What an [`AuthError`] holds.
pub enum AuthErrorView {
    NotLoggedIn,
    OrganizationNotFound,
    Config(ConfigFault),
    Token(TokenFault),
    ExpiryOutOfRange,
    MissingRefreshToken,
    Transport(Seq<char>),
    MalformedResponse,
    RefreshFailed { error: Seq<char>, description: Seq<char> },
    Provider { error: Seq<char>, description: Seq<char> },
    DeviceFlowDenied,
    DeviceFlowExpired,
    BadVerificationUrl,
    BadInterval,
    ClaimAssertionFailed(ClaimErrorView),
    NonInteractiveSession { command: Seq<char> },
    Io(Seq<char>),
    Protocol,
}

impl View for AuthError {
    type V = AuthErrorView;

    open spec fn view(&self) -> AuthErrorView {
        match self {
            AuthError::NotLoggedIn => AuthErrorView::NotLoggedIn,
            AuthError::OrganizationNotFound => AuthErrorView::OrganizationNotFound,
            AuthError::Config(fault) => AuthErrorView::Config(*fault),
            AuthError::Token(fault) => AuthErrorView::Token(*fault),
            AuthError::ExpiryOutOfRange => AuthErrorView::ExpiryOutOfRange,
            AuthError::MissingRefreshToken => AuthErrorView::MissingRefreshToken,
            AuthError::Transport(message) => AuthErrorView::Transport(message@),
            AuthError::MalformedResponse => AuthErrorView::MalformedResponse,
            AuthError::RefreshFailed { error, description } => AuthErrorView::RefreshFailed {
                error: error@,
                description: description@,
            },
            AuthError::Provider { error, description } => AuthErrorView::Provider {
                error: error@,
                description: description@,
            },
            AuthError::DeviceFlowDenied => AuthErrorView::DeviceFlowDenied,
            AuthError::DeviceFlowExpired => AuthErrorView::DeviceFlowExpired,
            AuthError::BadVerificationUrl => AuthErrorView::BadVerificationUrl,
            AuthError::BadInterval => AuthErrorView::BadInterval,
            AuthError::ClaimAssertionFailed(e) => AuthErrorView::ClaimAssertionFailed(e@),
            AuthError::NonInteractiveSession { command } => AuthErrorView::NonInteractiveSession {
                command: command@,
            },
            AuthError::Io(message) => AuthErrorView::Io(message@),
            AuthError::Protocol => AuthErrorView::Protocol,
        }
    }
}

impl Clone for AuthError {
    fn clone(&self) -> (r: AuthError)
        ensures
            r@ == self@,
    {
        match self {
            AuthError::NotLoggedIn => AuthError::NotLoggedIn,
            AuthError::OrganizationNotFound => AuthError::OrganizationNotFound,
            AuthError::Config(fault) => AuthError::Config(*fault),
            AuthError::Token(fault) => AuthError::Token(*fault),
            AuthError::ExpiryOutOfRange => AuthError::ExpiryOutOfRange,
            AuthError::MissingRefreshToken => AuthError::MissingRefreshToken,
            AuthError::Transport(message) => AuthError::Transport(message.clone()),
            AuthError::MalformedResponse => AuthError::MalformedResponse,
            AuthError::RefreshFailed { error, description } => AuthError::RefreshFailed {
                error: error.clone(),
                description: description.clone(),
            },
            AuthError::Provider { error, description } => AuthError::Provider {
                error: error.clone(),
                description: description.clone(),
            },
            AuthError::DeviceFlowDenied => AuthError::DeviceFlowDenied,
            AuthError::DeviceFlowExpired => AuthError::DeviceFlowExpired,
            AuthError::BadVerificationUrl => AuthError::BadVerificationUrl,
            AuthError::BadInterval => AuthError::BadInterval,
            AuthError::ClaimAssertionFailed(e) => AuthError::ClaimAssertionFailed(e.clone()),
            AuthError::NonInteractiveSession { command } => AuthError::NonInteractiveSession {
                command: command.clone(),
            },
            AuthError::Io(message) => AuthError::Io(message.clone()),
            AuthError::Protocol => AuthError::Protocol,
        }
    }
}

} // verus!
