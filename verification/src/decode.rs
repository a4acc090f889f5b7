//! Reading the claims out of a token. The signature is not verified: the
//! tokens come straight from the identity provider, over TLS, and this crate
//! has no channel by which it could get the keys.

use crate::claims::no_claims;
use crate::claims::Claims;
use crate::claims::ClaimsView;
use crate::json::json_of;
use crate::json::keys;
use crate::json::optional_table;
use crate::json::read_table;
use crate::json::optional_list;
use crate::json::optional_signed;
use crate::json::optional_text;
use crate::json::read_list;
use crate::json::read_signed;
use crate::json::read_text;
use crate::json::Json;
use crate::text::position;
use vstd::prelude::*;

verus! {

/// What is wrong with a token whose claims cannot be read.
#[derive(Clone, Copy, Debug, PartialEq, Eq, Structural)]
pub enum TokenFault {
    /// The token is not of the form `header.claims.signature`.
    Split,
    /// The claims part is not base64url without padding, or what it encodes
    /// is not JSON.
    Decode,
    /// The JSON is not an object, or one of the claims in it has a value of
    /// another type than the claim has.
    Parse,
}

/// The place of the last `c` in `s`, or -1 if it has none.
pub open spec fn last_position(s: Seq<char>, c: char) -> int
    decreases s.len(),
{
    if s.len() == 0 {
        -1
    } else if s.last() == c {
        s.len() - 1
    } else {
        last_position(s.drop_last(), c)
    }
}

/// The claims part of a token: what stands between its first and its last
/// dot, where these are two.
pub open spec fn claims_segment(token: Seq<char>) -> Option<Seq<char>> {
    let first = position(token, '.');
    let last = last_position(token, '.');
    if first < last {
        Some(token.subrange(first + 1, last))
    } else {
        None
    }
}

/// The JSON document that `jsonwebtokens::raw::decode_json_token_slice`
/// decodes from a part of a token, if the part encodes one.
pub uninterp spec fn segment_json(segment: Seq<char>) -> Option<Json>;

/// `jsonwebtokens::raw::split_token` cuts the token at its last dot into
/// message and signature, and the message at its first dot into header and
/// claims; it fails where either dot is missing.
#[verifier::external_body]
fn split_claims(token: &str) -> (r: Option<String>)
    ensures
        r.deep_view() == claims_segment(token@),
{
    jsonwebtokens::raw::split_token(token).ok().map(|slices| slices.claims.to_string())
}

/// `jsonwebtokens::raw::decode_json_token_slice` decodes base64url without
/// padding, takes the bytes as UTF-8 and reads them as one JSON document; it
/// fails where any of the three fails.
#[verifier::external_body]
fn decode_part(segment: &str) -> (r: Option<serde_json::Value>)
    ensures
        r is Some <==> segment_json(segment@) is Some,
        r matches Some(v) ==> segment_json(segment@) == Some(json_of(v)),
{
    jsonwebtokens::raw::decode_json_token_slice(segment).ok()
}

/// The names under which the claims stand in a token.
pub open spec fn key_exp() -> Seq<char> {
    "exp"@
}

pub open spec fn key_scope() -> Seq<char> {
    "scope"@
}

pub open spec fn key_email() -> Seq<char> {
    "email"@
}

pub open spec fn key_login_kubernetes() -> Seq<char> {
    "https://p6m.dev/v1/permission/login/kubernetes"@
}

pub open spec fn key_orgs() -> Seq<char> {
    "https://p6m.dev/v1/orgs"@
}

pub open spec fn key_org() -> Seq<char> {
    "https://p6m.dev/v1/org"@
}

pub open spec fn key_permissions() -> Seq<char> {
    "https://p6m.dev/v1/permission"@
}

pub open spec fn key_roles() -> Seq<char> {
    "https://p6m.dev/v1/roles"@
}

/// The claims that a JSON document holds. It has to be an object, and each
/// claim in it missing, `null` or of the claim's type; members that are no
/// claims are passed over.
pub open spec fn claims_of(document: Json) -> Option<ClaimsView> {
    match (
        document,
        optional_signed(document, key_exp()),
        optional_text(document, key_scope()),
        optional_text(document, key_email()),
        optional_text(document, key_login_kubernetes()),
        optional_table(document, key_orgs()),
        optional_text(document, key_org()),
        optional_list(document, key_permissions()),
        optional_list(document, key_roles()),
    ) {
        (
            Json::Object(_),
            Some(exp),
            Some(scope),
            Some(email),
            Some(login_kubernetes),
            Some(orgs),
            Some(org),
            Some(permissions),
            Some(roles),
        ) => Some(
            ClaimsView { exp, scope, email, login_kubernetes, orgs, org, permissions, roles },
        ),
        _ => None,
    }
}

/// The claims of a token, or what is wrong with it.
pub open spec fn token_claims(token: Seq<char>) -> Result<ClaimsView, TokenFault> {
    match claims_segment(token) {
        None => Err(TokenFault::Split),
        Some(segment) => match segment_json(segment) {
            None => Err(TokenFault::Decode),
            Some(document) => match claims_of(document) {
                Some(claims) => Ok(claims),
                None => Err(TokenFault::Parse),
            },
        },
    }
}

/// What a lenient reader takes from an optional token: its claims, or no
/// claims where there is no token or it cannot be read.
pub open spec fn lenient_claims(token: Option<Seq<char>>) -> ClaimsView {
    match token {
        None => no_claims(),
        Some(t) => match token_claims(t) {
            Ok(claims) => claims,
            Err(_) => no_claims(),
        },
    }
}

/// What optional claims hold.
pub open spec fn claims_view(r: Option<Claims>) -> Option<ClaimsView> {
    match r {
        Some(c) => Some(c@),
        None => None,
    }
}

/// What the claims of a token, or the fault in it, hold.
pub open spec fn decoded_view(r: Result<Claims, TokenFault>) -> Result<ClaimsView, TokenFault> {
    match r {
        Ok(c) => Ok(c@),
        Err(e) => Err(e),
    }
}

impl Claims {
    /// Reads the claims out of a JSON document. Members that are no claims
    /// are passed over.
    pub fn from_json(document: &serde_json::Value) -> (r: Option<Claims>)
        ensures
            claims_view(r) == claims_of(json_of(*document)),
    {
        if keys(document).is_none() {
            return None;
        }
        let exp = match read_signed(document, "exp") {
            Some(v) => v,
            None => {
                return None;
            },
        };
        let scope = match read_text(document, "scope") {
            Some(v) => v,
            None => {
                return None;
            },
        };
        let email = match read_text(document, "email") {
            Some(v) => v,
            None => {
                return None;
            },
        };
        let login_kubernetes = match read_text(
            document,
            "https://p6m.dev/v1/permission/login/kubernetes",
        ) {
            Some(v) => v,
            None => {
                return None;
            },
        };
        let orgs = match read_table(document, "https://p6m.dev/v1/orgs") {
            Some(v) => v,
            None => {
                return None;
            },
        };
        let org = match read_text(document, "https://p6m.dev/v1/org") {
            Some(v) => v,
            None => {
                return None;
            },
        };
        let permissions = match read_list(document, "https://p6m.dev/v1/permission") {
            Some(v) => v,
            None => {
                return None;
            },
        };
        let roles = match read_list(document, "https://p6m.dev/v1/roles") {
            Some(v) => v,
            None => {
                return None;
            },
        };
        Some(Claims { exp, scope, email, login_kubernetes, orgs, org, permissions, roles })
    }

    /// Reads the claims of a token, without verifying its signature.
    pub fn decode(token: &str) -> (r: Result<Claims, TokenFault>)
        ensures
            decoded_view(r) == token_claims(token@),
    {
        let segment = match split_claims(token) {
            Some(segment) => segment,
            None => {
                return Err(TokenFault::Split);
            },
        };
        let document = match decode_part(segment.as_str()) {
            Some(document) => document,
            None => {
                return Err(TokenFault::Decode);
            },
        };
        match Claims::from_json(&document) {
            Some(claims) => Ok(claims),
            None => Err(TokenFault::Parse),
        }
    }

    /// The claims of an optional token, read leniently: a missing token and
    /// one that cannot be read carry no claims.
    pub fn of_token(token: Option<&String>) -> (r: Claims)
        ensures
            r@ == lenient_claims(token.deep_view()),
    {
        match token {
            None => Claims::default(),
            Some(t) => match Claims::decode(t.as_str()) {
                Ok(claims) => claims,
                Err(_) => Claims::default(),
            },
        }
    }
}

} // verus!
