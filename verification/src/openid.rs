//! What the identity provider sends in the device authorization grant and in
//! the refresh grant, and how each answer is read.

use crate::json::as_text;
use crate::json::as_unsigned;
use crate::json::is_null;
use crate::json::json_of;
use crate::json::keys;
use crate::json::member;
use crate::json::optional_text;
use crate::json::parse;
use crate::json::parsed;
use crate::json::read_required_text;
use crate::json::read_text;
use crate::json::required_text;
use crate::json::Json;
use crate::text::concat;
use crate::text::decimal;
use crate::text::decimal_text;
use crate::text::parse_unsigned;
use crate::text::unsigned_value;
use crate::text::same_text;
use vstd::prelude::*;

verus! {

/// Where the endpoints of the identity provider are.
#[derive(Debug)]
pub struct OpenIdDiscoveryDocument {
    pub issuer: String,
    pub token_endpoint: String,
    pub device_authorization_endpoint: Option<String>,
    pub userinfo_endpoint: String,
    pub jwks_uri: String,
}

/// What an [`OpenIdDiscoveryDocument`] holds.
pub struct DiscoveryView {
    pub issuer: Seq<char>,
    pub token_endpoint: Seq<char>,
    pub device_authorization_endpoint: Option<Seq<char>>,
    pub userinfo_endpoint: Seq<char>,
    pub jwks_uri: Seq<char>,
}

impl View for OpenIdDiscoveryDocument {
    type V = DiscoveryView;

    open spec fn view(&self) -> DiscoveryView {
        DiscoveryView {
            issuer: self.issuer@,
            token_endpoint: self.token_endpoint@,
            device_authorization_endpoint: self.device_authorization_endpoint.deep_view(),
            userinfo_endpoint: self.userinfo_endpoint@,
            jwks_uri: self.jwks_uri@,
        }
    }
}

impl Clone for OpenIdDiscoveryDocument {
    fn clone(&self) -> (r: OpenIdDiscoveryDocument)
        ensures
            r@ == self@,
    {
        OpenIdDiscoveryDocument {
            issuer: self.issuer.clone(),
            token_endpoint: self.token_endpoint.clone(),
            device_authorization_endpoint: self.device_authorization_endpoint.clone(),
            userinfo_endpoint: self.userinfo_endpoint.clone(),
            jwks_uri: self.jwks_uri.clone(),
        }
    }
}

/// The discovery document that a JSON document holds: the four endpoints
/// that must be there are strings, the optional one a string, `null` or
/// missing.
pub open spec fn discovery_of(document: Json) -> Option<DiscoveryView> {
    match (
        required_text(document, "issuer"@),
        required_text(document, "token_endpoint"@),
        optional_text(document, "device_authorization_endpoint"@),
        required_text(document, "userinfo_endpoint"@),
        required_text(document, "jwks_uri"@),
    ) {
        (
            Some(issuer),
            Some(token_endpoint),
            Some(device_authorization_endpoint),
            Some(userinfo_endpoint),
            Some(jwks_uri),
        ) => Some(
            DiscoveryView {
                issuer,
                token_endpoint,
                device_authorization_endpoint,
                userinfo_endpoint,
                jwks_uri,
            },
        ),
        _ => None,
    }
}

/// What an optional discovery document holds.
pub open spec fn discovery_view(r: Option<OpenIdDiscoveryDocument>) -> Option<DiscoveryView> {
    match r {
        Some(d) => Some(d@),
        None => None,
    }
}

/// The discovery document that a text holds, if it is JSON of that form.
pub open spec fn discovery_in(body: Seq<char>) -> Option<DiscoveryView> {
    match parsed(body) {
        Some(document) => discovery_of(document),
        None => None,
    }
}

impl OpenIdDiscoveryDocument {
    /// Reads a discovery document out of the body of an answer.
    pub fn parse(body: &str) -> (r: Option<OpenIdDiscoveryDocument>)
        ensures
            discovery_view(r) == discovery_in(body@),
    {
        match parse(body) {
            Some(document) => OpenIdDiscoveryDocument::from_json(&document),
            None => None,
        }
    }

    /// Reads a discovery document out of a JSON document.
    pub fn from_json(document: &serde_json::Value) -> (r: Option<OpenIdDiscoveryDocument>)
        ensures
            discovery_view(r) == discovery_of(json_of(*document)),
    {
        let issuer = read_required_text(document, "issuer")?;
        let token_endpoint = read_required_text(document, "token_endpoint")?;
        let device_authorization_endpoint = read_text(document, "device_authorization_endpoint")?;
        let userinfo_endpoint = read_required_text(document, "userinfo_endpoint")?;
        let jwks_uri = read_required_text(document, "jwks_uri")?;
        Some(
            OpenIdDiscoveryDocument {
                issuer,
                token_endpoint,
                device_authorization_endpoint,
                userinfo_endpoint,
                jwks_uri,
            },
        )
    }
}

/// A text given as a string or as a number: a string stands for itself, an
/// integer that is not negative for its decimal digits, `null` for nothing.
/// The outer `None` says that the document is none of these.
pub open spec fn string_option_of(document: Json) -> Option<Option<Seq<char>>> {
    match document {
        Json::Null => Some(None),
        Json::Text(s) => Some(Some(s)),
        _ => match document.unsigned() {
            Some(n) => Some(Some(decimal_text(n as nat))),
            None => None,
        },
    }
}

/// Reads a text that the provider gives as a string or as a number.
pub fn deserialize_string_option(document: &serde_json::Value) -> (r: Option<Option<String>>)
    ensures
        r.deep_view() == string_option_of(json_of(*document)),
{
    if is_null(document) {
        return Some(None);
    }
    if let Some(s) = as_text(document) {
        return Some(Some(s.to_owned()));
    }
    match as_unsigned(document) {
        Some(n) => Some(Some(decimal(n))),
        None => None,
    }
}

/// The answer to the request for a device code.
#[derive(Debug)]
pub struct DeviceCodeResponse {
    pub device_code: String,
    pub user_code: String,
    pub verification_url: Option<String>,
    pub verification_uri: Option<String>,
    pub verification_uri_complete: Option<String>,
    /// The seconds for which the codes are good.
    pub expires_in: Option<String>,
    /// The seconds to wait between two polls.
    pub interval: Option<String>,
}

/// What a [`DeviceCodeResponse`] holds.
pub struct DeviceCodeView {
    pub device_code: Seq<char>,
    pub user_code: Seq<char>,
    pub verification_url: Option<Seq<char>>,
    pub verification_uri: Option<Seq<char>>,
    pub verification_uri_complete: Option<Seq<char>>,
    pub expires_in: Option<Seq<char>>,
    pub interval: Option<Seq<char>>,
}

impl View for DeviceCodeResponse {
    type V = DeviceCodeView;

    open spec fn view(&self) -> DeviceCodeView {
        DeviceCodeView {
            device_code: self.device_code@,
            user_code: self.user_code@,
            verification_url: self.verification_url.deep_view(),
            verification_uri: self.verification_uri.deep_view(),
            verification_uri_complete: self.verification_uri_complete.deep_view(),
            expires_in: self.expires_in.deep_view(),
            interval: self.interval.deep_view(),
        }
    }
}

impl Clone for DeviceCodeResponse {
    fn clone(&self) -> (r: DeviceCodeResponse)
        ensures
            r@ == self@,
    {
        DeviceCodeResponse {
            device_code: self.device_code.clone(),
            user_code: self.user_code.clone(),
            verification_url: self.verification_url.clone(),
            verification_uri: self.verification_uri.clone(),
            verification_uri_complete: self.verification_uri_complete.clone(),
            expires_in: self.expires_in.clone(),
            interval: self.interval.clone(),
        }
    }
}

/// The string-or-number member `key`, which has to be there.
pub open spec fn required_string_option(document: Json, key: Seq<char>) -> Option<
    Option<Seq<char>>,
> {
    match document.member(key) {
        Some(value) => string_option_of(value),
        None => None,
    }
}

/// The device-code answer that a JSON document holds.
pub open spec fn device_code_of(document: Json) -> Option<DeviceCodeView> {
    match (
        required_text(document, "device_code"@),
        required_text(document, "user_code"@),
        optional_text(document, "verification_url"@),
        optional_text(document, "verification_uri"@),
        optional_text(document, "verification_uri_complete"@),
        required_string_option(document, "expires_in"@),
        required_string_option(document, "interval"@),
    ) {
        (
            Some(device_code),
            Some(user_code),
            Some(verification_url),
            Some(verification_uri),
            Some(verification_uri_complete),
            Some(expires_in),
            Some(interval),
        ) => Some(
            DeviceCodeView {
                device_code,
                user_code,
                verification_url,
                verification_uri,
                verification_uri_complete,
                expires_in,
                interval,
            },
        ),
        _ => None,
    }
}

/// What an optional device-code answer holds.
pub open spec fn device_code_view(r: Option<DeviceCodeResponse>) -> Option<DeviceCodeView> {
    match r {
        Some(d) => Some(d@),
        None => None,
    }
}

/// The URL that the operator is sent to: the complete verification URI
/// where the provider gives one, else the plain one under either of its
/// two names.
pub open spec fn verification_target(response: DeviceCodeView) -> Option<Seq<char>> {
    if response.verification_uri_complete is Some {
        response.verification_uri_complete
    } else if response.verification_uri is Some {
        response.verification_uri
    } else {
        response.verification_url
    }
}

fn read_required_string_option(document: &serde_json::Value, key: &str) -> (r: Option<
    Option<String>,
>)
    ensures
        r.deep_view() == required_string_option(json_of(*document), key@),
{
    match member(document, key) {
        Some(value) => deserialize_string_option(value),
        None => None,
    }
}

/// The device-code answer that a text holds, if it is JSON of that form.
pub open spec fn device_code_in(body: Seq<char>) -> Option<DeviceCodeView> {
    match parsed(body) {
        Some(document) => device_code_of(document),
        None => None,
    }
}

/// The seconds to wait between two polls: the interval that the provider
/// gave, if it is a positive number.
pub open spec fn poll_interval(response: DeviceCodeView) -> Option<u64> {
    match unsigned_value(or_empty(response.interval)) {
        Some(seconds) => if seconds > 0 {
            Some(seconds)
        } else {
            None
        },
        None => None,
    }
}

impl DeviceCodeResponse {
    /// Reads a device-code answer out of the body of an answer.
    pub fn parse(body: &str) -> (r: Option<DeviceCodeResponse>)
        ensures
            device_code_view(r) == device_code_in(body@),
    {
        match parse(body) {
            Some(document) => DeviceCodeResponse::from_json(&document),
            None => None,
        }
    }

    /// The seconds to wait between two polls. A provider that gives no
    /// interval, or one that is no positive number, gets no poll at all.
    pub fn poll_interval(&self) -> (r: Option<u64>)
        ensures
            r == poll_interval(self@),
    {
        let seconds = match &self.interval {
            Some(interval) => parse_unsigned(interval.as_str()),
            None => {
                assert(unsigned_value(Seq::<char>::empty()) is None);
                None
            },
        };
        match seconds {
            Some(n) => if n > 0 {
                Some(n)
            } else {
                None
            },
            None => None,
        }
    }

    /// Reads a device-code answer out of a JSON document.
    pub fn from_json(document: &serde_json::Value) -> (r: Option<DeviceCodeResponse>)
        ensures
            device_code_view(r) == device_code_of(json_of(*document)),
    {
        let device_code = read_required_text(document, "device_code")?;
        let user_code = read_required_text(document, "user_code")?;
        let verification_url = read_text(document, "verification_url")?;
        let verification_uri = read_text(document, "verification_uri")?;
        let verification_uri_complete = read_text(document, "verification_uri_complete")?;
        let expires_in = read_required_string_option(document, "expires_in")?;
        let interval = read_required_string_option(document, "interval")?;
        Some(
            DeviceCodeResponse {
                device_code,
                user_code,
                verification_url,
                verification_uri,
                verification_uri_complete,
                expires_in,
                interval,
            },
        )
    }

    /// The URL that the operator is sent to.
    pub fn verification_target(&self) -> (r: Option<&String>)
        ensures
            r.deep_view() == verification_target(self@),
    {
        if self.verification_uri_complete.is_some() {
            self.verification_uri_complete.as_ref()
        } else if self.verification_uri.is_some() {
            self.verification_uri.as_ref()
        } else {
            self.verification_url.as_ref()
        }
    }
}

/// A bundle of tokens as the provider sends it, or the error it sends
/// instead. Each part may be missing.
#[derive(Debug)]
pub struct AccessTokenResponse {
    pub access_token: Option<String>,
    pub refresh_token: Option<String>,
    pub id_token: Option<String>,
    pub error: Option<String>,
    pub error_description: Option<String>,
}

/// What an [`AccessTokenResponse`] holds.
pub struct TokensView {
    pub access_token: Option<Seq<char>>,
    pub refresh_token: Option<Seq<char>>,
    pub id_token: Option<Seq<char>>,
    pub error: Option<Seq<char>>,
    pub error_description: Option<Seq<char>>,
}

impl View for AccessTokenResponse {
    type V = TokensView;

    open spec fn view(&self) -> TokensView {
        TokensView {
            access_token: self.access_token.deep_view(),
            refresh_token: self.refresh_token.deep_view(),
            id_token: self.id_token.deep_view(),
            error: self.error.deep_view(),
            error_description: self.error_description.deep_view(),
        }
    }
}

impl Clone for AccessTokenResponse {
    fn clone(&self) -> (r: AccessTokenResponse)
        ensures
            r@ == self@,
    {
        AccessTokenResponse {
            access_token: self.access_token.clone(),
            refresh_token: self.refresh_token.clone(),
            id_token: self.id_token.clone(),
            error: self.error.clone(),
            error_description: self.error_description.clone(),
        }
    }
}

impl Default for AccessTokenResponse {
    fn default() -> (r: AccessTokenResponse)
        ensures
            r@ == no_tokens(),
    {
        AccessTokenResponse {
            access_token: None,
            refresh_token: None,
            id_token: None,
            error: None,
            error_description: None,
        }
    }
}

impl TokensView {
    /// The token of one kind.
    pub open spec fn bundle_token(self, kind: crate::auth0::AuthToken) -> Option<Seq<char>> {
        match kind {
            crate::auth0::AuthToken::Access => self.access_token,
            crate::auth0::AuthToken::Id => self.id_token,
            crate::auth0::AuthToken::Refresh => self.refresh_token,
        }
    }
}

/// The bundle without any part.
pub open spec fn no_tokens() -> TokensView {
    TokensView {
        access_token: None,
        refresh_token: None,
        id_token: None,
        error: None,
        error_description: None,
    }
}

/// The bundle that a JSON document holds: each part a string, `null` or
/// missing.
pub open spec fn tokens_of(document: Json) -> Option<TokensView> {
    match (
        document,
        optional_text(document, "access_token"@),
        optional_text(document, "refresh_token"@),
        optional_text(document, "id_token"@),
        optional_text(document, "error"@),
        optional_text(document, "error_description"@),
    ) {
        (
            Json::Object(_),
            Some(access_token),
            Some(refresh_token),
            Some(id_token),
            Some(error),
            Some(error_description),
        ) => Some(TokensView { access_token, refresh_token, id_token, error, error_description }),
        _ => None,
    }
}

/// What an optional bundle holds.
pub open spec fn tokens_view(r: Option<AccessTokenResponse>) -> Option<TokensView> {
    match r {
        Some(t) => Some(t@),
        None => None,
    }
}

/// How an answer to a poll is to be taken.
#[derive(Clone, Copy, Debug, PartialEq, Eq, Structural)]
pub enum Poll {
    /// The operator approved: the answer holds the tokens.
    Approved,
    /// No decision yet: poll again.
    Pending,
    /// The device code is no longer good.
    Expired,
    /// The operator refused.
    Denied,
    /// The provider reports another error.
    Failed,
}

/// How the answer to a poll is to be taken: an access token means approval;
/// without one, the error decides, and no error at all means "not yet".
pub open spec fn poll_of(answer: TokensView) -> Poll {
    if answer.access_token is Some {
        Poll::Approved
    } else {
        match answer.error {
            None => Poll::Pending,
            Some(error) => if error == "authorization_pending"@ {
                Poll::Pending
            } else if error == "expired_token"@ {
                Poll::Expired
            } else if error == "access_denied"@ {
                Poll::Denied
            } else {
                Poll::Failed
            },
        }
    }
}

/// The text of an optional text, the empty text for none.
pub open spec fn or_empty(text: Option<Seq<char>>) -> Seq<char> {
    match text {
        Some(t) => t,
        None => Seq::empty(),
    }
}

/// The error of a bundle in one line: the code, a colon and the description.
pub open spec fn error_line(answer: TokensView) -> Seq<char> {
    or_empty(answer.error) + ": "@ + or_empty(answer.error_description)
}

fn error_is(error: &Option<String>, code: &str) -> (r: bool)
    ensures
        r == (error.deep_view() == Some(code@)),
{
    match error {
        Some(e) => same_text(e.as_str(), code),
        None => false,
    }
}

/// The bundle that a text holds, if it is JSON of that form.
pub open spec fn tokens_in(body: Seq<char>) -> Option<TokensView> {
    match parsed(body) {
        Some(document) => tokens_of(document),
        None => None,
    }
}

impl AccessTokenResponse {
    /// Reads a bundle out of the body of an answer.
    pub fn parse(body: &str) -> (r: Option<AccessTokenResponse>)
        ensures
            tokens_view(r) == tokens_in(body@),
    {
        match parse(body) {
            Some(document) => AccessTokenResponse::from_json(&document),
            None => None,
        }
    }

    /// Reads a bundle out of a JSON document.
    pub fn from_json(document: &serde_json::Value) -> (r: Option<AccessTokenResponse>)
        ensures
            tokens_view(r) == tokens_of(json_of(*document)),
    {
        if keys(document).is_none() {
            return None;
        }
        let access_token = read_text(document, "access_token")?;
        let refresh_token = read_text(document, "refresh_token")?;
        let id_token = read_text(document, "id_token")?;
        let error = read_text(document, "error")?;
        let error_description = read_text(document, "error_description")?;
        Some(AccessTokenResponse { access_token, refresh_token, id_token, error, error_description })
    }

    /// Whether the bundle holds an access token.
    pub fn has_token(&self) -> (r: bool)
        ensures
            r == self@.access_token is Some,
    {
        self.access_token.is_some()
    }

    /// Whether the provider still waits for the operator.
    pub fn is_pending(&self) -> (r: bool)
        ensures
            r == (self@.error == Some("authorization_pending"@)),
    {
        error_is(&self.error, "authorization_pending")
    }

    /// Whether the device code is no longer good.
    pub fn is_expired(&self) -> (r: bool)
        ensures
            r == (self@.error == Some("expired_token"@)),
    {
        error_is(&self.error, "expired_token")
    }

    /// Whether the operator refused.
    pub fn is_denied(&self) -> (r: bool)
        ensures
            r == (self@.error == Some("access_denied"@)),
    {
        error_is(&self.error, "access_denied")
    }

    /// The error in one line: the code, a colon and the description.
    pub fn as_error(&self) -> (r: String)
        ensures
            r@ == error_line(self@),
    {
        let line = match &self.error {
            Some(e) => e.clone(),
            None => String::new(),
        };
        let description = match &self.error_description {
            Some(d) => d.clone(),
            None => String::new(),
        };
        let line = concat(line.as_str(), ": ");
        concat(line.as_str(), description.as_str())
    }

    /// How the bundle is to be taken as the answer to a poll.
    pub fn poll(&self) -> (r: Poll)
        ensures
            r == poll_of(self@),
    {
        if self.has_token() {
            Poll::Approved
        } else if self.error.is_none() || self.is_pending() {
            Poll::Pending
        } else if self.is_expired() {
            Poll::Expired
        } else if self.is_denied() {
            Poll::Denied
        } else {
            Poll::Failed
        }
    }
}

/// What the provider tells of the identity behind an access token. Which
/// parts are there depends on the scopes of the token.
#[derive(Debug)]
pub struct UserInfo {
    pub name: Option<String>,
    pub email: Option<String>,
    pub p6m_email: Option<String>,
    pub org: Option<String>,
}

/// The lines that say who is logged in: organization and email where both
/// are known, the email alone where only it is, nothing without an email.
pub open spec fn user_lines(email: Option<Seq<char>>, org: Option<Seq<char>>) -> Seq<char> {
    match (email, org) {
        (Some(e), Some(o)) => "Organization: "@ + o + "\n"@ + "Email: "@ + e,
        (Some(e), None) => "Email: "@ + e,
        _ => Seq::empty(),
    }
}

/// What a [`UserInfo`] holds.
pub struct UserInfoView {
    pub name: Option<Seq<char>>,
    pub email: Option<Seq<char>>,
    pub p6m_email: Option<Seq<char>>,
    pub org: Option<Seq<char>>,
}

impl View for UserInfo {
    type V = UserInfoView;

    open spec fn view(&self) -> UserInfoView {
        UserInfoView {
            name: self.name.deep_view(),
            email: self.email.deep_view(),
            p6m_email: self.p6m_email.deep_view(),
            org: self.org.deep_view(),
        }
    }
}

/// What the provider tells of an identity, as a JSON document holds it:
/// an object in which each part is a string, `null` or missing.
pub open spec fn user_info_of(document: Json) -> Option<UserInfoView> {
    match (
        document,
        optional_text(document, "name"@),
        optional_text(document, "email"@),
        optional_text(document, "https://p6m.dev/v1/email"@),
        optional_text(document, "https://p6m.dev/v1/org"@),
    ) {
        (Json::Object(_), Some(name), Some(email), Some(p6m_email), Some(org)) => Some(
            UserInfoView { name, email, p6m_email, org },
        ),
        _ => None,
    }
}

/// What a text tells of an identity, if it is JSON of that form.
pub open spec fn user_info_in(body: Seq<char>) -> Option<UserInfoView> {
    match parsed(body) {
        Some(document) => user_info_of(document),
        None => None,
    }
}

/// What an optional [`UserInfo`] holds.
pub open spec fn user_info_view(r: Option<UserInfo>) -> Option<UserInfoView> {
    match r {
        Some(info) => Some(info@),
        None => None,
    }
}

impl UserInfo {
    /// Reads what the provider tells of an identity out of a JSON document.
    pub fn from_json(document: &serde_json::Value) -> (r: Option<UserInfo>)
        ensures
            user_info_view(r) == user_info_of(json_of(*document)),
    {
        if keys(document).is_none() {
            return None;
        }
        let name = read_text(document, "name")?;
        let email = read_text(document, "email")?;
        let p6m_email = read_text(document, "https://p6m.dev/v1/email")?;
        let org = read_text(document, "https://p6m.dev/v1/org")?;
        Some(UserInfo { name, email, p6m_email, org })
    }

    /// Reads what the provider tells of an identity out of the body of
    /// its answer.
    pub fn parse(body: &str) -> (r: Option<UserInfo>)
        ensures
            user_info_view(r) == user_info_in(body@),
    {
        match parse(body) {
            Some(document) => UserInfo::from_json(&document),
            None => None,
        }
    }

    /// The lines that say who is logged in.
    pub fn to_string(&self) -> (r: String)
        ensures
            r@ == user_lines(self.email.deep_view(), self.org.deep_view()),
    {
        match (&self.email, &self.org) {
            (Some(email), Some(org)) => {
                let a = concat("Organization: ", org.as_str());
                let b = concat(a.as_str(), "\n");
                let c = concat(b.as_str(), "Email: ");
                concat(c.as_str(), email.as_str())
            },
            (Some(email), None) => concat("Email: ", email.as_str()),
            _ => String::new(),
        }
    }
}

} // verus!
