use p6m::openid::{
    deserialize_string_option, AccessTokenResponse, DeviceCodeResponse, OpenIdDiscoveryDocument,
    Poll, UserInfo,
};

fn bundle(error: Option<&str>, access: Option<&str>) -> AccessTokenResponse {
    AccessTokenResponse {
        access_token: access.map(|a| a.to_string()),
        error: error.map(|e| e.to_string()),
        ..Default::default()
    }
}

#[test]
fn token_response_predicates() {
    assert!(bundle(None, Some("a")).has_token());
    assert!(!bundle(None, None).has_token());
    assert!(bundle(Some("authorization_pending"), None).is_pending());
    assert!(!bundle(Some("expired_token"), None).is_pending());
    assert!(bundle(Some("expired_token"), None).is_expired());
    assert!(bundle(Some("access_denied"), None).is_denied());
    assert!(!bundle(None, None).is_denied());
    assert!(!bundle(None, None).is_expired());
    assert!(!bundle(None, None).is_pending());
}

#[test]
fn as_error_joins_code_and_description() {
    let answer = AccessTokenResponse {
        error: Some("invalid_grant".to_string()),
        error_description: Some("Unknown or invalid refresh token.".to_string()),
        ..Default::default()
    };
    assert_eq!(answer.as_error(), "invalid_grant: Unknown or invalid refresh token.");
    assert_eq!(AccessTokenResponse::default().as_error(), ": ");
}

#[test]
fn poll_reads_the_answer_of_the_provider() {
    assert_eq!(bundle(None, Some("a")).poll(), Poll::Approved);
    assert_eq!(bundle(Some("access_denied"), Some("a")).poll(), Poll::Approved);
    assert_eq!(bundle(Some("authorization_pending"), None).poll(), Poll::Pending);
    assert_eq!(bundle(None, None).poll(), Poll::Pending);
    assert_eq!(bundle(Some("expired_token"), None).poll(), Poll::Expired);
    assert_eq!(bundle(Some("access_denied"), None).poll(), Poll::Denied);
    assert_eq!(bundle(Some("slow_down"), None).poll(), Poll::Failed);
    assert_eq!(bundle(Some(""), None).poll(), Poll::Failed);
}

#[test]
fn token_response_is_read_from_json() {
    let answer = AccessTokenResponse::parse(
        "{\"access_token\":\"a\",\"refresh_token\":null,\"id_token\":\"i\",\"expires_in\":86400}",
    )
    .unwrap();
    assert_eq!(answer.access_token, Some("a".to_string()));
    assert_eq!(answer.refresh_token, None);
    assert_eq!(answer.id_token, Some("i".to_string()));
    assert_eq!(answer.error, None);
    assert!(AccessTokenResponse::parse("{\"access_token\":5}").is_none());
    assert!(AccessTokenResponse::parse("[]").is_none());
    assert!(AccessTokenResponse::parse("\"text\"").is_none());
    assert!(AccessTokenResponse::parse("{\"access_token\":\"a\"} trailing").is_none());
    assert!(AccessTokenResponse::parse("").is_none());
    let empty = AccessTokenResponse::parse("{}").unwrap();
    assert_eq!(empty.access_token, None);
}

#[test]
fn discovery_document_needs_its_endpoints() {
    let document = OpenIdDiscoveryDocument::parse(
        "{\"issuer\":\"i\",\"token_endpoint\":\"t\",\"userinfo_endpoint\":\"u\",\"jwks_uri\":\"j\"}",
    )
    .unwrap();
    assert_eq!(document.issuer, "i");
    assert_eq!(document.token_endpoint, "t");
    assert_eq!(document.device_authorization_endpoint, None);
    assert_eq!(document.userinfo_endpoint, "u");
    assert_eq!(document.jwks_uri, "j");
    assert!(OpenIdDiscoveryDocument::parse(
        "{\"issuer\":\"i\",\"userinfo_endpoint\":\"u\",\"jwks_uri\":\"j\"}"
    )
    .is_none());
    assert!(OpenIdDiscoveryDocument::parse(
        "{\"issuer\":null,\"token_endpoint\":\"t\",\"userinfo_endpoint\":\"u\",\"jwks_uri\":\"j\"}"
    )
    .is_none());
    let with_device = OpenIdDiscoveryDocument::parse(
        "{\"issuer\":\"i\",\"token_endpoint\":\"t\",\"userinfo_endpoint\":\"u\",\"jwks_uri\":\"j\",\
         \"device_authorization_endpoint\":\"d\"}",
    )
    .unwrap();
    assert_eq!(with_device.device_authorization_endpoint, Some("d".to_string()));
}

#[test]
fn string_option_takes_strings_numbers_and_null() {
    let number = serde_json::Value::Number(serde_json::Number::from(900u64));
    assert_eq!(deserialize_string_option(&number), Some(Some("900".to_string())));
    let zero = serde_json::Value::Number(serde_json::Number::from(0u64));
    assert_eq!(deserialize_string_option(&zero), Some(Some("0".to_string())));
    let big = serde_json::Value::Number(serde_json::Number::from(u64::MAX));
    assert_eq!(
        deserialize_string_option(&big),
        Some(Some("18446744073709551615".to_string()))
    );
    let text = serde_json::Value::String("5".to_string());
    assert_eq!(deserialize_string_option(&text), Some(Some("5".to_string())));
    assert_eq!(deserialize_string_option(&serde_json::Value::Null), Some(None));
    let negative = serde_json::Value::Number(serde_json::Number::from(-1));
    assert_eq!(deserialize_string_option(&negative), None);
    assert_eq!(deserialize_string_option(&serde_json::Value::Bool(true)), None);
    assert_eq!(deserialize_string_option(&serde_json::Value::Array(vec![])), None);
}

#[test]
fn device_code_response_prefers_the_complete_url() {
    let all = DeviceCodeResponse::parse(
        "{\"device_code\":\"d\",\"user_code\":\"u\",\"verification_url\":\"url\",\
         \"verification_uri\":\"uri\",\"verification_uri_complete\":\"complete\",\
         \"expires_in\":900,\"interval\":\"5\"}",
    )
    .unwrap();
    assert_eq!(all.verification_target(), Some(&"complete".to_string()));
    assert_eq!(all.expires_in, Some("900".to_string()));
    assert_eq!(all.interval, Some("5".to_string()));
    assert_eq!(all.poll_interval(), Some(5));
    let two = DeviceCodeResponse::parse(
        "{\"device_code\":\"d\",\"user_code\":\"u\",\"verification_url\":\"url\",\
         \"verification_uri\":\"uri\",\"expires_in\":null,\"interval\":null}",
    )
    .unwrap();
    assert_eq!(two.verification_target(), Some(&"uri".to_string()));
    assert_eq!(two.poll_interval(), None);
    let one = DeviceCodeResponse::parse(
        "{\"device_code\":\"d\",\"user_code\":\"u\",\"verification_url\":\"url\",\
         \"expires_in\":1,\"interval\":\"+12\"}",
    )
    .unwrap();
    assert_eq!(one.verification_target(), Some(&"url".to_string()));
    assert_eq!(one.poll_interval(), Some(12));
    assert!(DeviceCodeResponse::parse("{\"device_code\":\"d\",\"user_code\":\"u\"}").is_none());
    assert!(DeviceCodeResponse::parse(
        "{\"device_code\":\"d\",\"user_code\":\"u\",\"expires_in\":1,\"interval\":-5}"
    )
    .is_none());
}

#[test]
fn user_info_lines() {
    let both = UserInfo {
        name: None,
        email: Some("a@b.com".to_string()),
        p6m_email: None,
        org: Some("Acme".to_string()),
    };
    assert_eq!(both.to_string(), "Organization: Acme\nEmail: a@b.com");
    let email = UserInfo {
        name: Some("A".to_string()),
        email: Some("a@b.com".to_string()),
        p6m_email: None,
        org: None,
    };
    assert_eq!(email.to_string(), "Email: a@b.com");
    let org = UserInfo {
        name: None,
        email: None,
        p6m_email: None,
        org: Some("Acme".to_string()),
    };
    assert_eq!(org.to_string(), "");
}
