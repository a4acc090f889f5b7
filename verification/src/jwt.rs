//! Tokens for development, signed with a secret that is none.

use crate::text::concat;
use crate::text::signed_decimal;
use crate::text::signed_decimal_text;
use vstd::prelude::*;

verus! {

/// The token that `jsonwebtokens::encode` makes of a header and of claims,
/// both given as JSON texts, signed by HMAC with SHA-256 and `secret`;
/// nothing where a text is no JSON.
pub uninterp spec fn hs256_token(header: Seq<char>, claims: Seq<char>, secret: Seq<char>)
    -> Option<Seq<char>>;

/// `serde_json::from_str` reads header and claims,
/// `jsonwebtokens::Algorithm::new_hmac` makes the algorithm of the secret,
/// and `jsonwebtokens::encode` encodes and signs the token.
#[verifier::external_body]
fn sign_hs256(header: &str, claims: &str, secret: &str) -> (r: Option<String>)
    ensures
        r.deep_view() == hs256_token(header@, claims@, secret@),
{
    let header: serde_json::Value = serde_json::from_str(header).ok()?;
    let claims: serde_json::Value = serde_json::from_str(claims).ok()?;
    let algorithm = jsonwebtokens::Algorithm::new_hmac(jsonwebtokens::AlgorithmID::HS256, secret)
        .ok()?;
    jsonwebtokens::encode(&header, &claims, &algorithm).ok()
}

/// The header of a development token.
pub open spec fn insecure_header() -> Seq<char> {
    "{\"alg\":\"HS256\",\"typ\":\"JWT\"}"@
}

/// The claims of a development token that expires at `exp`.
pub open spec fn insecure_claims(exp: int) -> Seq<char> {
    "{\"iss\":\"http://example.com\",\"sub\":\"1234567890\",\"exp\":"@ + signed_decimal_text(exp)
        + ",\"name\":\"John Doe\",\"admin\":true,\"scope\":\"products:read products:write orders:read\"}"@
}

/// The seconds of a day.
pub open spec fn day() -> int {
    86400
}

/// The development token made at `now` that is good for `days`; nothing
/// where its expiry is out of range.
pub open spec fn insecure_token(days: u32, now: i64) -> Option<Seq<char>> {
    if now + days * day() > i64::MAX {
        None
    } else {
        hs256_token(insecure_header(), insecure_claims(now + days * day()), "insecure"@)
    }
}

/// The claims of a development token.
pub fn insecure_claims_json(exp: i64) -> (r: String)
    ensures
        r@ == insecure_claims(exp as int),
{
    let head = concat(
        "{\"iss\":\"http://example.com\",\"sub\":\"1234567890\",\"exp\":",
        signed_decimal(exp).as_str(),
    );
    concat(
        head.as_str(),
        ",\"name\":\"John Doe\",\"admin\":true,\"scope\":\"products:read products:write orders:read\"}",
    )
}

/// Makes a token for development, good for `expire_days` from `now`, in
/// seconds since the epoch.
pub fn generate_jwt(expire_days: u32, now: i64) -> (r: Option<String>)
    ensures
        r.deep_view() == insecure_token(expire_days, now),
{
    let span: i64 = expire_days as i64 * 86400;
    let exp = match now.checked_add(span) {
        Some(exp) => exp,
        None => {
            return None;
        },
    };
    let claims = insecure_claims_json(exp);
    sign_hs256("{\"alg\":\"HS256\",\"typ\":\"JWT\"}", claims.as_str(), "insecure")
}

} // verus!
