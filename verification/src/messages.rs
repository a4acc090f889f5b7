//! What the operator is told when something goes wrong.

use crate::auth0::ConfigFault;
use crate::claims::wildcard;
use crate::claims::ClaimError;
use crate::claims::ClaimErrorView;
use crate::claims::ClaimField;
use crate::claims::ClaimValue;
use crate::claims::ClaimValueView;
use crate::decode::key_email;
use crate::decode::key_exp;
use crate::decode::key_login_kubernetes;
use crate::decode::key_org;
use crate::decode::key_orgs;
use crate::decode::key_permissions;
use crate::decode::key_roles;
use crate::decode::key_scope;
use crate::decode::TokenFault;
use crate::error::AuthError;
use crate::error::AuthErrorView;
use crate::json::json_text;
use crate::json::quote;
use crate::string_map::Entries;
use crate::string_map::StringMap;
use crate::text::concat;
use crate::text::join;
use crate::text::joined;
use crate::text::signed_decimal;
use crate::text::signed_decimal_text;
use vstd::prelude::*;

verus! {

/// The name under which a claim stands in a token.
pub open spec fn field_key(field: ClaimField) -> Seq<char> {
    match field {
        ClaimField::Email => key_email(),
        ClaimField::Exp => key_exp(),
        ClaimField::Org => key_org(),
        ClaimField::Orgs => key_orgs(),
        ClaimField::Permissions => key_permissions(),
        ClaimField::LoginKubernetes => key_login_kubernetes(),
        ClaimField::Roles => key_roles(),
        ClaimField::Scope => key_scope(),
    }
}

impl ClaimField {
    /// The name under which the claim stands in a token.
    pub fn key(&self) -> (r: &'static str)
        ensures
            r@ == field_key(*self),
    {
        match self {
            ClaimField::Email => "email",
            ClaimField::Exp => "exp",
            ClaimField::Org => "https://p6m.dev/v1/org",
            ClaimField::Orgs => "https://p6m.dev/v1/orgs",
            ClaimField::Permissions => "https://p6m.dev/v1/permission",
            ClaimField::LoginKubernetes => "https://p6m.dev/v1/permission/login/kubernetes",
            ClaimField::Roles => "https://p6m.dev/v1/roles",
            ClaimField::Scope => "scope",
        }
    }
}

/// The texts as JSON strings.
pub open spec fn quoted(items: Seq<Seq<char>>) -> Seq<Seq<char>> {
    Seq::new(items.len(), |i: int| json_text(items[i]))
}

/// The entries as JSON members.
pub open spec fn quoted_entries(entries: Entries) -> Seq<Seq<char>> {
    Seq::new(entries.len(), |i: int| json_text(entries[i].0) + ":"@ + json_text(entries[i].1))
}

/// The value of a claim as JSON on one line.
pub open spec fn value_text(value: ClaimValueView) -> Seq<char> {
    match value {
        ClaimValueView::Number(n) => signed_decimal_text(n as int),
        ClaimValueView::Text(s) => json_text(s),
        ClaimValueView::List(items) => "["@ + joined(quoted(items), ","@) + "]"@,
        ClaimValueView::Table(entries) => "{"@ + joined(quoted_entries(entries), ","@) + "}"@,
    }
}

/// What is said of a claim that fails the assertion.
pub open spec fn claim_error_text(error: ClaimErrorView) -> Seq<char> {
    match error {
        ClaimErrorView::Missing { field } => "Missing field: "@ + field_key(field),
        ClaimErrorView::Mismatch { field, expected, actual } => {
            let head = "Field "@ + field_key(field) + " mismatch: "@;
            if expected == ClaimValueView::List(Seq::empty()) {
                head + "expected empty array, found "@ + value_text(actual)
            } else if expected == ClaimValueView::List(wildcard()) {
                head + "expected non-empty array due to wildcard, found empty array"@
            } else {
                head + "expected "@ + value_text(expected) + ", found "@ + value_text(actual)
            }
        },
    }
}

fn write_list(items: &Vec<String>) -> (r: String)
    ensures
        r@ == "["@ + joined(quoted(items.deep_view()), ","@) + "]"@,
{
    let mut parts: Vec<String> = Vec::new();
    let mut i: usize = 0;
    while i < items.len()
        invariant
            i <= items.len(),
            parts.deep_view() == quoted(items.deep_view()).take(i as int),
        decreases items.len() - i,
    {
        let ghost before = parts.deep_view();
        let part = quote(items[i].as_str());
        parts.push(part);
        assert(parts.deep_view() =~= before.push(part@));
        assert(parts.deep_view() =~= quoted(items.deep_view()).take(i as int + 1));
        i = i + 1;
    }
    assert(parts.deep_view() =~= quoted(items.deep_view()));
    let a = concat("[", join(&parts, ",").as_str());
    concat(a.as_str(), "]")
}

fn write_table(table: &StringMap) -> (r: String)
    ensures
        r@ == "{"@ + joined(quoted_entries(table@), ","@) + "}"@,
{
    let mut parts: Vec<String> = Vec::new();
    let mut i: usize = 0;
    while i < table.len()
        invariant
            i <= table@.len(),
            parts.deep_view() == quoted_entries(table@).take(i as int),
        decreases table@.len() - i,
    {
        let ghost before = parts.deep_view();
        let a = concat(quote(table.key_at(i).as_str()).as_str(), ":");
        let part = concat(a.as_str(), quote(table.value_at(i).as_str()).as_str());
        parts.push(part);
        assert(parts.deep_view() =~= before.push(part@));
        assert(parts.deep_view() =~= quoted_entries(table@).take(i as int + 1));
        i = i + 1;
    }
    assert(parts.deep_view() =~= quoted_entries(table@));
    let a = concat("{", join(&parts, ",").as_str());
    concat(a.as_str(), "}")
}

impl ClaimValue {
    /// The value as JSON on one line.
    pub fn to_string(&self) -> (r: String)
        ensures
            r@ == value_text(self@),
    {
        match self {
            ClaimValue::Number(n) => signed_decimal(*n),
            ClaimValue::Text(s) => quote(s.as_str()),
            ClaimValue::List(items) => write_list(items),
            ClaimValue::Table(table) => write_table(table),
        }
    }
}

impl ClaimError {
    /// What is said of the claim that fails the assertion.
    pub fn to_string(&self) -> (r: String)
        ensures
            r@ == claim_error_text(self@),
    {
        match self {
            ClaimError::Missing { field } => concat("Missing field: ", field.key()),
            ClaimError::Mismatch { field, expected, actual } => {
                let a = concat("Field ", field.key());
                let head = concat(a.as_str(), " mismatch: ");
                let empty = match expected {
                    ClaimValue::List(items) => items.len() == 0,
                    _ => false,
                };
                let any = match expected {
                    ClaimValue::List(items) => crate::claims::is_wildcard(items),
                    _ => false,
                };
                proof {
                    if let ClaimValue::List(items) = expected {
                        assert(items.deep_view().len() == 0 <==> items.deep_view()
                            =~= Seq::<Seq<char>>::empty());
                    }
                }
                if empty {
                    let b = concat(head.as_str(), "expected empty array, found ");
                    concat(b.as_str(), actual.to_string().as_str())
                } else if any {
                    concat(
                        head.as_str(),
                        "expected non-empty array due to wildcard, found empty array",
                    )
                } else {
                    let b = concat(head.as_str(), "expected ");
                    let c = concat(b.as_str(), expected.to_string().as_str());
                    let d = concat(c.as_str(), ", found ");
                    concat(d.as_str(), actual.to_string().as_str())
                }
            },
        }
    }
}

/// What is said of a client configuration that lacks something.
pub open spec fn config_fault_text(fault: ConfigFault) -> Seq<char> {
    match fault {
        ConfigFault::MissingClientId => "missing client_id"@,
        ConfigFault::MissingDiscoveryUri => "missing discovery uri"@,
        ConfigFault::MissingDeviceAuthorizationEndpoint => "missing device authorization endpoint"@,
        ConfigFault::MissingVerificationUrl => "missing verification URL"@,
        ConfigFault::MissingAuthN => "missing authn"@,
    }
}

/// What is said of a token that cannot be read.
pub open spec fn token_fault_text(fault: TokenFault) -> Seq<char> {
    match fault {
        TokenFault::Split => "unable to split token"@,
        TokenFault::Decode => "unable to decode token"@,
        TokenFault::Parse => "unable to parse token"@,
    }
}

/// What the operator is told of an error.
pub open spec fn error_text(error: AuthErrorView) -> Seq<char> {
    match error {
        AuthErrorView::NotLoggedIn =>
            "Please run `p6m login` before acquiring an organization token."@,
        AuthErrorView::OrganizationNotFound =>
            "missing desired organization in access token claims"@,
        AuthErrorView::Config(fault) => config_fault_text(fault),
        AuthErrorView::Token(fault) => token_fault_text(fault),
        AuthErrorView::ExpiryOutOfRange => "unable to parse exp claim"@,
        AuthErrorView::MissingRefreshToken => "missing refresh token"@,
        AuthErrorView::Transport(message) => message,
        AuthErrorView::MalformedResponse => "unable to read the answer of the identity provider"@,
        AuthErrorView::RefreshFailed { error, description } => "unable to refresh tokens: "@ + error
            + ": "@ + description,
        AuthErrorView::Provider { error, description } => error + ": "@ + description,
        AuthErrorView::DeviceFlowDenied => "User denied request."@,
        AuthErrorView::DeviceFlowExpired => "Device code expired."@,
        AuthErrorView::BadVerificationUrl => "missing host"@,
        AuthErrorView::BadInterval => "the identity provider gave no interval to poll at"@,
        AuthErrorView::ClaimAssertionFailed(e) => claim_error_text(e),
        AuthErrorView::NonInteractiveSession { command } => "Please run `"@ + command
            + "` in an interactive session."@,
        AuthErrorView::Io(message) => message,
        AuthErrorView::Protocol => "the reply does not answer the request"@,
    }
}

impl ConfigFault {
    /// What is said of the fault.
    pub fn to_string(&self) -> (r: String)
        ensures
            r@ == config_fault_text(*self),
    {
        match self {
            ConfigFault::MissingClientId => "missing client_id".to_owned(),
            ConfigFault::MissingDiscoveryUri => "missing discovery uri".to_owned(),
            ConfigFault::MissingDeviceAuthorizationEndpoint =>
                "missing device authorization endpoint".to_owned(),
            ConfigFault::MissingVerificationUrl => "missing verification URL".to_owned(),
            ConfigFault::MissingAuthN => "missing authn".to_owned(),
        }
    }
}

impl TokenFault {
    /// What is said of the fault.
    pub fn to_string(&self) -> (r: String)
        ensures
            r@ == token_fault_text(*self),
    {
        match self {
            TokenFault::Split => "unable to split token".to_owned(),
            TokenFault::Decode => "unable to decode token".to_owned(),
            TokenFault::Parse => "unable to parse token".to_owned(),
        }
    }
}

impl AuthError {
    /// What the operator is told of the error.
    pub fn to_string(&self) -> (r: String)
        ensures
            r@ == error_text(self@),
    {
        match self {
            AuthError::NotLoggedIn =>
                "Please run `p6m login` before acquiring an organization token.".to_owned(),
            AuthError::OrganizationNotFound =>
                "missing desired organization in access token claims".to_owned(),
            AuthError::Config(fault) => fault.to_string(),
            AuthError::Token(fault) => fault.to_string(),
            AuthError::ExpiryOutOfRange => "unable to parse exp claim".to_owned(),
            AuthError::MissingRefreshToken => "missing refresh token".to_owned(),
            AuthError::Transport(message) => message.clone(),
            AuthError::MalformedResponse =>
                "unable to read the answer of the identity provider".to_owned(),
            AuthError::RefreshFailed { error, description } => {
                let a = concat("unable to refresh tokens: ", error.as_str());
                let b = concat(a.as_str(), ": ");
                concat(b.as_str(), description.as_str())
            },
            AuthError::Provider { error, description } => {
                let a = concat(error.as_str(), ": ");
                concat(a.as_str(), description.as_str())
            },
            AuthError::DeviceFlowDenied => "User denied request.".to_owned(),
            AuthError::DeviceFlowExpired => "Device code expired.".to_owned(),
            AuthError::BadVerificationUrl => "missing host".to_owned(),
            AuthError::BadInterval =>
                "the identity provider gave no interval to poll at".to_owned(),
            AuthError::ClaimAssertionFailed(e) => e.to_string(),
            AuthError::NonInteractiveSession { command } => {
                let a = concat("Please run `", command.as_str());
                concat(a.as_str(), "` in an interactive session.")
            },
            AuthError::Io(message) => message.clone(),
            AuthError::Protocol => "the reply does not answer the request".to_owned(),
        }
    }
}

/// The chain of contexts and the error at its end, as the command line
/// prints it: from the outermost context inwards, with a colon between.
pub fn error_chain(contexts: &Vec<String>, error: &AuthError) -> (r: String)
    ensures
        r@ == joined(contexts.deep_view().push(error_text(error@)), ": "@),
{
    let mut parts = crate::text::copy_list(contexts);
    let ghost before = parts.deep_view();
    let message = error.to_string();
    parts.push(message);
    assert(parts.deep_view() =~= before.push(message@));
    join(&parts, ": ")
}

} // verus!
