//! What `whoami` prints: who is logged in, a token, or the credential
//! that `kubectl` asks an exec plugin for.

use crate::auth0::AuthToken;
use crate::claims::Claims;
use crate::claims::ClaimsView;
use crate::error::AuthError;
use crate::json::json_text;
use crate::json::quote;
use crate::scopes::with_scope;
use crate::text::concat;
use crate::token_repository::expiry_of;
use crate::token_repository::representable;
use crate::token_repository::identity_text;
use crate::token_repository::Moment;
use crate::token_repository::RepositoryView;
use crate::token_repository::StoredTokens;
use crate::token_repository::StoredView;
use crate::token_repository::TokenRepository;
use vstd::prelude::*;

verus! {

/// The forms in which `whoami` answers.
#[derive(Clone, Copy, Debug, PartialEq, Eq, Structural)]
pub enum Output {
    Default,
    Json,
    K8sAuth,
    AccessToken,
    IdToken,
}

/// The `spec` of an exec credential.
#[derive(Clone, Copy, Debug, PartialEq, Eq, Structural)]
pub struct K8sAuthSpec {
    pub interactive: Option<bool>,
}

/// The `status` of an exec credential.
#[derive(Debug, PartialEq, Eq)]
pub struct K8sAuthStatus {
    /// When the token expires, in seconds since the epoch.
    pub expiration_timestamp: Option<i64>,
    pub token: Option<String>,
}

/// The credential that `kubectl` asks an exec plugin for.
#[derive(Debug, PartialEq, Eq)]
pub struct K8sAuth {
    pub kind: Option<String>,
    pub api_version: Option<String>,
    pub spec: Option<K8sAuthSpec>,
    pub status: Option<K8sAuthStatus>,
}

/// What a [`K8sAuthStatus`] holds.
pub struct K8sStatusView {
    pub expiration_timestamp: Option<i64>,
    pub token: Option<Seq<char>>,
}

/// What a [`K8sAuth`] holds.
pub struct K8sAuthView {
    pub kind: Option<Seq<char>>,
    pub api_version: Option<Seq<char>>,
    pub spec: Option<K8sAuthSpec>,
    pub status: Option<K8sStatusView>,
}

impl View for K8sAuthStatus {
    type V = K8sStatusView;

    open spec fn view(&self) -> K8sStatusView {
        K8sStatusView {
            expiration_timestamp: self.expiration_timestamp,
            token: self.token.deep_view(),
        }
    }
}

impl View for K8sAuth {
    type V = K8sAuthView;

    open spec fn view(&self) -> K8sAuthView {
        K8sAuthView {
            kind: self.kind.deep_view(),
            api_version: self.api_version.deep_view(),
            spec: self.spec,
            status: match self.status {
                Some(status) => Some(status@),
                None => None,
            },
        }
    }
}

/// The kind of an exec credential.
pub open spec fn exec_credential_kind() -> Seq<char> {
    "ExecCredential"@
}

/// The version of the API of exec credentials.
pub open spec fn exec_credential_version() -> Seq<char> {
    "client.authentication.k8s.io/v1beta1"@
}

/// The exec credential with `status`.
pub open spec fn exec_credential(status: K8sStatusView) -> K8sAuthView {
    K8sAuthView {
        kind: Some(exec_credential_kind()),
        api_version: Some(exec_credential_version()),
        spec: Some(K8sAuthSpec { interactive: Some(false) }),
        status: Some(status),
    }
}

impl Default for K8sAuth {
    fn default() -> (r: K8sAuth)
        ensures
            r@ == exec_credential(K8sStatusView { expiration_timestamp: None, token: None }),
    {
        K8sAuth {
            kind: Some("ExecCredential".to_owned()),
            api_version: Some("client.authentication.k8s.io/v1beta1".to_owned()),
            spec: Some(K8sAuthSpec { interactive: Some(false) }),
            status: Some(K8sAuthStatus { expiration_timestamp: None, token: None }),
        }
    }
}

/// The time `seconds` after the epoch as `chrono` writes it after RFC 3339:
/// date and time in UTC, with `Z` for the zone. It stands for the times
/// that `chrono` can represent.
pub uninterp spec fn rfc3339_text(seconds: i64) -> Seq<char>;

/// `chrono::DateTime::from_timestamp` makes a time of seconds since the
/// epoch, and none of seconds that it cannot represent;
/// `DateTime::to_rfc3339_opts` writes the time after RFC 3339, here with
/// `Z` for UTC and without a fraction of the second.
#[verifier::external_body]
fn rfc3339(seconds: i64) -> (r: Option<String>)
    ensures
        r is Some <==> representable(seconds),
        r matches Some(text) ==> text@ == rfc3339_text(seconds),
{
    chrono::DateTime::from_timestamp(seconds, 0).map(
        |t| t.to_rfc3339_opts(chrono::SecondsFormat::AutoSi, true),
    )
}

/// A JSON string, or `null` for no text.
pub open spec fn json_optional_text(text: Option<Seq<char>>) -> Seq<char> {
    match text {
        Some(t) => json_text(t),
        None => "null"@,
    }
}

/// The JSON of the `spec` of an exec credential.
pub open spec fn json_spec(spec: Option<K8sAuthSpec>) -> Seq<char> {
    match spec {
        None => "null"@,
        Some(s) => "{\"interactive\":"@ + (match s.interactive {
            Some(true) => "true"@,
            Some(false) => "false"@,
            None => "null"@,
        }) + "}"@,
    }
}

/// The member of the status that says when the token expires. A status
/// without an expiry has no such member, and neither has one whose expiry
/// cannot be written.
pub open spec fn json_expiry(expiry: Option<i64>) -> Seq<char> {
    match expiry {
        None => Seq::empty(),
        Some(seconds) => if representable(seconds) {
            "\"expirationTimestamp\":"@ + json_text(rfc3339_text(seconds))
        } else {
            Seq::empty()
        },
    }
}

/// The JSON of the `status` of an exec credential.
pub open spec fn json_status(status: Option<K8sStatusView>) -> Seq<char> {
    match status {
        None => "null"@,
        Some(s) => {
            let expiry = json_expiry(s.expiration_timestamp);
            let token = match s.token {
                Some(t) => "\"token\":"@ + json_text(t),
                None => Seq::empty(),
            };
            let comma = if expiry.len() > 0 && token.len() > 0 {
                ","@
            } else {
                Seq::empty()
            };
            "{"@ + expiry + comma + token + "}"@
        },
    }
}

/// The JSON of an exec credential: one line, the members in the order of
/// their names.
pub open spec fn json_credential(auth: K8sAuthView) -> Seq<char> {
    "{\"apiVersion\":"@ + json_optional_text(auth.api_version) + ",\"kind\":"@
        + json_optional_text(auth.kind) + ",\"spec\":"@ + json_spec(auth.spec) + ",\"status\":"@
        + json_status(auth.status) + "}"@
}

fn write_optional_text(text: &Option<String>) -> (r: String)
    ensures
        r@ == json_optional_text(text.deep_view()),
{
    match text {
        Some(t) => quote(t.as_str()),
        None => "null".to_owned(),
    }
}

fn write_spec(spec: &Option<K8sAuthSpec>) -> (r: String)
    ensures
        r@ == json_spec(*spec),
{
    match spec {
        None => "null".to_owned(),
        Some(s) => {
            let value = match s.interactive {
                Some(true) => "true",
                Some(false) => "false",
                None => "null",
            };
            let head = concat("{\"interactive\":", value);
            concat(head.as_str(), "}")
        },
    }
}

fn write_expiry(expiry: Option<i64>) -> (r: String)
    ensures
        r@ == json_expiry(expiry),
{
    match expiry {
        None => String::new(),
        Some(seconds) => match rfc3339(seconds) {
            None => String::new(),
            Some(text) => concat("\"expirationTimestamp\":", quote(text.as_str()).as_str()),
        },
    }
}

fn write_status(status: &Option<K8sAuthStatus>) -> (r: String)
    ensures
        r@ == json_status(
            match *status {
                Some(s) => Some(s@),
                None => None,
            },
        ),
{
    match status {
        None => "null".to_owned(),
        Some(s) => {
            let expiry = write_expiry(s.expiration_timestamp);
            let token = match &s.token {
                Some(t) => concat("\"token\":", quote(t.as_str()).as_str()),
                None => String::new(),
            };
            let comma = if expiry.as_str().unicode_len() > 0 && token.as_str().unicode_len() > 0 {
                ","
            } else {
                ""
            };
            proof {
                reveal_strlit("");
            }
            let a = concat("{", expiry.as_str());
            let b = concat(a.as_str(), comma);
            let c = concat(b.as_str(), token.as_str());
            concat(c.as_str(), "}")
        },
    }
}

impl K8sAuth {
    /// The credential as `kubectl` reads it.
    pub fn to_json(&self) -> (r: String)
        ensures
            r@ == json_credential(self@),
    {
        let a = concat("{\"apiVersion\":", write_optional_text(&self.api_version).as_str());
        let b = concat(a.as_str(), ",\"kind\":");
        let c = concat(b.as_str(), write_optional_text(&self.kind).as_str());
        let d = concat(c.as_str(), ",\"spec\":");
        let e = concat(d.as_str(), write_spec(&self.spec).as_str());
        let f = concat(e.as_str(), ",\"status\":");
        let g = concat(f.as_str(), write_status(&self.status).as_str());
        concat(g.as_str(), "}")
    }
}

/// The token that is handed to Kubernetes: the one that the configuration
/// prefers, or else the identity token.
pub open spec fn preferred_token(repository: RepositoryView) -> AuthToken {
    match repository.auth_n.token_preference {
        Some(kind) => kind,
        None => AuthToken::Id,
    }
}

/// The status of the credential made of the stored tokens: the preferred
/// token, and its expiry where that can be read.
pub open spec fn credential_status(repository: RepositoryView, stored: StoredView, now: Moment)
    -> K8sStatusView {
    K8sStatusView {
        expiration_timestamp: match expiry_of(stored.token(preferred_token(repository)), now) {
            Ok(seconds) => Some(seconds),
            Err(_) => None,
        },
        token: stored.token(preferred_token(repository)),
    }
}

/// The credential made of the stored tokens carries the expiry that was
/// read from the token: an expiry in the status is a time that can be
/// written, and the JSON of the credential has it as its
/// `expirationTimestamp`.
pub proof fn law_credential_carries_its_expiry(
    repository: RepositoryView,
    stored: StoredView,
    now: Moment,
)
    ensures
        credential_status(repository, stored, now).expiration_timestamp matches Some(seconds)
            ==> representable(seconds) && json_expiry(Some(seconds)) == "\"expirationTimestamp\":"@
            + json_text(rfc3339_text(seconds)),
        credential_status(repository, stored, now).expiration_timestamp is Some <==> expiry_of(
            stored.token(preferred_token(repository)),
            now,
        ) is Ok,
{
}

/// The exec credential made of the stored tokens.
pub fn k8s_auth(repository: &TokenRepository, stored: &StoredTokens, now: Moment) -> (r: K8sAuth)
    ensures
        r@ == exec_credential(credential_status(repository@, stored@, now)),
{
    let kind = match repository.auth_n.token_preference {
        Some(kind) => kind,
        None => AuthToken::Id,
    };
    let expiration_timestamp = match repository.read_expiration(kind, stored, now) {
        Ok(seconds) => Some(seconds),
        Err(_) => None,
    };
    let token = match repository.read_token(kind, stored) {
        Some(t) => Some(t.clone()),
        None => None,
    };
    K8sAuth {
        kind: Some("ExecCredential".to_owned()),
        api_version: Some("client.authentication.k8s.io/v1beta1".to_owned()),
        spec: Some(K8sAuthSpec { interactive: Some(false) }),
        status: Some(K8sAuthStatus { expiration_timestamp, token }),
    }
}

/// Why `whoami` has nothing to print.
#[derive(Clone, Copy, Debug, PartialEq, Eq, Structural)]
pub enum WhoamiFault {
    /// A credential for Kubernetes is asked for without an organization.
    OrganizationRequired,
    /// The token that is asked for is not stored.
    MissingToken,
    /// The claims are asked for and no identity token is stored.
    NotLoggedIn,
    /// The identity token cannot be read.
    BadToken,
}

/// The claim set that asks for the capability to log in to Kubernetes.
pub open spec fn kubernetes_claim() -> ClaimsView {
    ClaimsView {
        exp: None,
        scope: None,
        email: None,
        login_kubernetes: Some("true"@),
        orgs: None,
        org: None,
        permissions: None,
        roles: None,
    }
}

/// What `whoami` prints in the forms that are made of the stored tokens
/// alone.
pub open spec fn whoami_text(
    output: Output,
    organization: Option<Seq<char>>,
    repository: RepositoryView,
    stored: StoredView,
    now: Moment,
) -> Result<Seq<char>, WhoamiFault> {
    match output {
        Output::K8sAuth => if organization is None {
            Err(WhoamiFault::OrganizationRequired)
        } else {
            Ok(json_credential(exec_credential(credential_status(repository, stored, now))))
        },
        Output::IdToken => match stored.id_token {
            Some(token) => Ok(token),
            None => Err(WhoamiFault::MissingToken),
        },
        Output::AccessToken => match stored.access_token {
            Some(token) => Ok(token),
            None => Err(WhoamiFault::MissingToken),
        },
        Output::Default => Ok(identity_text(stored)),
        Output::Json => match crate::token_repository::stored_claims(stored.id_token) {
            Ok(Some(claims)) => Ok(crate::render::claims_json(claims)),
            Ok(None) => Err(WhoamiFault::NotLoggedIn),
            Err(_) => Err(WhoamiFault::BadToken),
        },
    }
}

/// What a text, or the lack of one, holds.
pub open spec fn text_view(r: Result<String, WhoamiFault>) -> Result<Seq<char>, WhoamiFault> {
    match r {
        Ok(text) => Ok(text@),
        Err(e) => Err(e),
    }
}

/// What `whoami` prints.
pub fn whoami_output(
    output: Output,
    organization: Option<&String>,
    repository: &TokenRepository,
    stored: &StoredTokens,
    now: Moment,
) -> (r: Result<String, WhoamiFault>)
    ensures
        text_view(r) == whoami_text(output, organization.deep_view(), repository@, stored@, now),
{
    match output {
        Output::K8sAuth => {
            if organization.is_none() {
                Err(WhoamiFault::OrganizationRequired)
            } else {
                Ok(k8s_auth(repository, stored, now).to_json())
            }
        },
        Output::IdToken => match &stored.id_token {
            Some(token) => Ok(token.clone()),
            None => Err(WhoamiFault::MissingToken),
        },
        Output::AccessToken => match &stored.access_token {
            Some(token) => Ok(token.clone()),
            None => Err(WhoamiFault::MissingToken),
        },
        Output::Default => Ok(repository.to_string(stored)),
        Output::Json => match repository.read_claims(AuthToken::Id, stored) {
            Ok(Some(claims)) => Ok(crate::render::to_json(&claims)),
            Ok(None) => Err(WhoamiFault::NotLoggedIn),
            Err(_) => Err(WhoamiFault::BadToken),
        },
    }
}

/// Tells the repository what `whoami` asks for. Without an organization it
/// asks for nothing more than a login.
pub fn configure_whoami(
    repository: &mut TokenRepository,
    output: Output,
    organization: Option<&String>,
    stored: &StoredTokens,
) -> (r: Result<(), AuthError>)
    ensures
        organization is None ==> r is Ok && final(repository)@ == old(repository)@,
        organization is Some ==> ({
            let asked = if output == Output::K8sAuth {
                RepositoryView {
                    scopes: with_scope(old(repository)@.scopes, "login:kubernetes"@),
                    desired_claims: crate::claims::merged(
                        old(repository)@.desired_claims,
                        kubernetes_claim(),
                    ),
                    ..old(repository)@
                }
            } else {
                old(repository)@
            };
            match crate::token_repository::organization_of(stored@, organization->0@) {
                Err(e) => r matches Err(f) && f@ == e && final(repository)@ == asked,
                Ok(id) => r is Ok && final(repository)@ == (RepositoryView {
                    organization_id: Some(id),
                    auth_dir: crate::paths::path_join(asked.auth_dir, id),
                    scopes: with_scope(asked.scopes, crate::token_repository::org_scope(id)),
                    desired_claims: crate::claims::merged(
                        asked.desired_claims,
                        crate::token_repository::org_claim(organization->0@),
                    ),
                    ..asked
                }),
            }
        }),
{
    match organization {
        None => Ok(()),
        Some(name) => {
            if output == Output::K8sAuth {
                let mut desired = Claims::default();
                desired.login_kubernetes = Some("true".to_owned());
                repository.with_scope("login:kubernetes", desired);
            }
            repository.with_organization(name, stored)
        },
    }
}

} // verus!
