use base64::Engine;
use p6m::auth0::{AuthN, ConfigFault};
use p6m::claims::{ClaimError, ClaimField, Claims};
use p6m::decode::TokenFault;
use p6m::error::AuthError;
use p6m::session::{Environment, Goal, Reply, Request, Session};
use p6m::string_map::StringMap;
use p6m::token_repository::{Moment, StoredTokens, TokenRepository, TryReason};

const NOW: i64 = 1_700_000_000;
const DISCOVERY_URL: &str = "https://auth.example/.well-known/openid-configuration";
const DISCOVERY: &str = "{\"issuer\":\"https://auth.example/\",\
    \"token_endpoint\":\"https://auth.example/oauth/token\",\
    \"device_authorization_endpoint\":\"https://auth.example/oauth/device/code\",\
    \"userinfo_endpoint\":\"https://auth.example/userinfo\",\
    \"jwks_uri\":\"https://auth.example/jwks\"}";
const DEVICE: &str = "{\"device_code\":\"dev-1\",\"user_code\":\"ABCD-EFGH\",\
    \"verification_uri\":\"https://auth.example/activate\",\
    \"verification_uri_complete\":\"https://auth.example/activate?user_code=ABCD-EFGH\",\
    \"expires_in\":900,\"interval\":5}";

fn token_with(claims: &str) -> String {
    let encode = |text: &str| base64::engine::general_purpose::URL_SAFE_NO_PAD.encode(text);
    format!("{}.{}.{}", encode("{}"), encode(claims), "s")
}

fn token_expiring(exp: i64) -> String {
    token_with(&format!("{{\"exp\":{},\"email\":\"a@b.com\"}}", exp))
}

fn repository() -> TokenRepository {
    let auth_n = AuthN {
        client_id: Some("client".to_string()),
        discovery_uri: Some(DISCOVERY_URL.to_string()),
        token_preference: None,
        params: None,
        acr_values: None,
        apps_uri: None,
    };
    TokenRepository::new(&auth_n, "/auth")
}

fn environment(interactive: bool) -> Environment {
    Environment {
        now: Moment { seconds: NOW, nanos: 0 },
        interactive,
        command: "p6m whoami".to_string(),
    }
}

fn stored(access: &str, id: &str, refresh: Option<&str>) -> StoredTokens {
    StoredTokens {
        access_token: Some(access.to_string()),
        id_token: Some(id.to_string()),
        refresh_token: refresh.map(|t| t.to_string()),
    }
}

fn bundle_body(access: &str, id: &str) -> String {
    format!("{{\"access_token\":\"{}\",\"id_token\":\"{}\",\"token_type\":\"Bearer\"}}", access, id)
}

fn form(pairs: &[(&str, &str)]) -> StringMap {
    let mut map = StringMap::new();
    for (key, value) in pairs {
        map.insert(key.to_string(), value.to_string());
    }
    map
}

fn expect_get(request: Request, expected: &str) {
    match request {
        Request::Get { url } => assert_eq!(url, expected),
        other => panic!("expected a fetch, got {:?}", other),
    }
}

fn expect_finish(request: Request) -> Result<(), AuthError> {
    match request {
        Request::Finish { outcome } => outcome,
        other => panic!("expected the end, got {:?}", other),
    }
}

/// Drives the interactive login from the discovery reply to the first poll.
fn login_up_to_poll(session: Session) -> Session {
    let (session, request) = session.advance(Reply::Body(DISCOVERY.to_string()));
    assert!(matches!(request, Request::ReadStore));
    let (session, request) = session.advance(Reply::Stored(StoredTokens::empty()));
    match request {
        Request::Post { url, form: sent } => {
            assert_eq!(url, "https://auth.example/oauth/device/code");
            assert_eq!(
                sent,
                form(&[
                    ("client_id", "client"),
                    ("scope", "email login:cli offline_access openid")
                ])
            );
        }
        other => panic!("expected the device code request, got {:?}", other),
    }
    let (session, request) = session.advance(Reply::Body(DEVICE.to_string()));
    match request {
        Request::Prompt { user_code, host, url } => {
            assert_eq!(user_code, "ABCD-EFGH");
            assert_eq!(host, "auth.example");
            assert_eq!(url, "https://auth.example/activate?user_code=ABCD-EFGH");
        }
        other => panic!("expected the prompt, got {:?}", other),
    }
    let (session, request) = session.advance(Reply::Done);
    assert!(matches!(request, Request::Wait { seconds: 5 }));
    let (session, request) = session.advance(Reply::Done);
    match request {
        Request::Post { url, form: sent } => {
            assert_eq!(url, "https://auth.example/oauth/token");
            assert_eq!(
                sent,
                form(&[
                    ("client_id", "client"),
                    ("code", "dev-1"),
                    ("device_code", "dev-1"),
                    ("grant_type", "urn:ietf:params:oauth:grant-type:device_code")
                ])
            );
        }
        other => panic!("expected a poll, got {:?}", other),
    }
    session
}

#[test]
fn fresh_tokens_are_kept_without_a_call_to_the_provider() {
    let fresh = token_expiring(NOW + 7200);
    let (session, request) =
        Session::start(repository(), TryReason::SsoCommand, environment(false), Goal::Refresh);
    assert!(matches!(request, Request::ReadStore));
    let (session, request) = session.advance(Reply::Stored(stored(&fresh, &fresh, Some("r"))));
    match request {
        Request::Write { tokens } => {
            assert_eq!(tokens.access_token, Some(fresh.clone()));
            assert_eq!(tokens.id_token, Some(fresh.clone()));
            assert_eq!(tokens.refresh_token, Some("r".to_string()));
        }
        other => panic!("expected a write, got {:?}", other),
    }
    let (session, request) = session.advance(Reply::Done);
    assert_eq!(expect_finish(request), Ok(()));
    assert!(session.is_finished());
    let (_, request) = session.advance(Reply::Done);
    assert_eq!(expect_finish(request), Err(AuthError::Protocol));
}

#[test]
fn forced_login_clears_the_store_first_even_with_fresh_tokens() {
    let mut forced = repository();
    forced.force();
    let (session, request) =
        Session::start(forced, TryReason::LoginCommand, environment(true), Goal::Login);
    assert!(matches!(request, Request::ClearStore));
    let (session, request) = session.advance(Reply::Done);
    expect_get(request, DISCOVERY_URL);
    let session = login_up_to_poll(session);
    let pending = "{\"error\":\"authorization_pending\",\"error_description\":\"wait\"}";
    let (session, request) = session.advance(Reply::Body(pending.to_string()));
    assert!(matches!(request, Request::Wait { seconds: 5 }));
    let (session, request) = session.advance(Reply::Done);
    assert!(matches!(request, Request::Post { .. }));
    let id = token_expiring(NOW + 7200);
    let (session, request) = session.advance(Reply::Body(bundle_body("access-1", &id)));
    match request {
        Request::Write { tokens } => {
            assert_eq!(tokens.access_token, Some("access-1".to_string()));
            assert_eq!(tokens.id_token, Some(id));
            assert_eq!(tokens.refresh_token, None);
        }
        other => panic!("expected a write, got {:?}", other),
    }
    let (_, request) = session.advance(Reply::Done);
    assert_eq!(expect_finish(request), Ok(()));
}

#[test]
fn refused_refresh_falls_back_to_login() {
    let due = token_expiring(NOW + 60);
    let (session, _) =
        Session::start(repository(), TryReason::SsoCommand, environment(true), Goal::Refresh);
    let (session, request) = session.advance(Reply::Stored(stored(&due, &due, Some("refresh-1"))));
    expect_get(request, DISCOVERY_URL);
    let (session, request) = session.advance(Reply::Body(DISCOVERY.to_string()));
    match request {
        Request::Post { url, form: sent } => {
            assert_eq!(url, "https://auth.example/oauth/token");
            assert_eq!(
                sent,
                form(&[
                    (
                        "acr_values",
                        "urn:auth:acr:scope:email urn:auth:acr:scope:login:cli \
                         urn:auth:acr:scope:offline_access urn:auth:acr:scope:openid"
                    ),
                    ("client_id", "client"),
                    ("grant_type", "refresh_token"),
                    ("refresh_token", "refresh-1")
                ])
            );
        }
        other => panic!("expected the refresh grant, got {:?}", other),
    }
    let refused = "{\"error\":\"invalid_grant\",\"error_description\":\"revoked\"}";
    let (session, request) = session.advance(Reply::Body(refused.to_string()));
    // Not the end: the interactive login begins.
    expect_get(request, DISCOVERY_URL);
    let session = login_up_to_poll(session);
    let id = token_expiring(NOW + 7200);
    let (session, request) = session.advance(Reply::Body(bundle_body("access-2", &id)));
    assert!(matches!(request, Request::Write { .. }));
    let (_, request) = session.advance(Reply::Done);
    assert_eq!(expect_finish(request), Ok(()));
}

#[test]
fn forced_refresh_ends_with_the_refusal() {
    let fresh = token_expiring(NOW + 7200);
    let mut forced = repository();
    forced.force();
    let (session, _) =
        Session::start(forced, TryReason::LoginCommand, environment(true), Goal::Refresh);
    let (session, request) = session.advance(Reply::Stored(stored(&fresh, &fresh, Some("r"))));
    expect_get(request, DISCOVERY_URL);
    let (session, request) = session.advance(Reply::Body(DISCOVERY.to_string()));
    assert!(matches!(request, Request::Post { .. }));
    let refused = "{\"error\":\"invalid_grant\"}";
    let (_, request) = session.advance(Reply::Body(refused.to_string()));
    assert_eq!(
        expect_finish(request),
        Err(AuthError::RefreshFailed {
            error: "invalid_grant".to_string(),
            description: String::new()
        })
    );
}

#[test]
fn refresh_without_refresh_token_fails_or_falls_back() {
    let due = token_expiring(NOW);
    let mut forced = repository();
    forced.force();
    let (session, _) =
        Session::start(forced, TryReason::LoginCommand, environment(true), Goal::Refresh);
    let (_, request) = session.advance(Reply::Stored(stored(&due, &due, None)));
    assert_eq!(expect_finish(request), Err(AuthError::MissingRefreshToken));
    let (session, _) =
        Session::start(repository(), TryReason::SsoCommand, environment(true), Goal::Refresh);
    let (_, request) = session.advance(Reply::Stored(stored(&due, &due, None)));
    expect_get(request, DISCOVERY_URL);
}

#[test]
fn non_interactive_login_fails_without_a_call() {
    let mut forced = repository();
    forced.force();
    let (session, request) =
        Session::start(forced, TryReason::LoginCommand, environment(false), Goal::Login);
    assert!(matches!(request, Request::ClearStore));
    let (_, request) = session.advance(Reply::Done);
    assert_eq!(
        expect_finish(request),
        Err(AuthError::NonInteractiveSession {
            command: "p6m whoami".to_string()
        })
    );
    // The fallback of a refresh does not get through either.
    let due = token_expiring(NOW);
    let (session, _) =
        Session::start(repository(), TryReason::SsoCommand, environment(false), Goal::Refresh);
    let (_, request) = session.advance(Reply::Stored(stored(&due, &due, None)));
    assert_eq!(
        expect_finish(request),
        Err(AuthError::NonInteractiveSession {
            command: "p6m whoami".to_string()
        })
    );
}

#[test]
fn failed_assertion_writes_nothing() {
    let fresh = token_expiring(NOW + 7200);
    let mut asking = repository();
    asking.with_scope(
        "login:kubernetes",
        Claims {
            login_kubernetes: Some("true".to_string()),
            ..Default::default()
        },
    );
    let (session, _) =
        Session::start(asking, TryReason::WhoAmICommand, environment(true), Goal::Refresh);
    let (_, request) = session.advance(Reply::Stored(stored(&fresh, &fresh, Some("r"))));
    assert_eq!(
        expect_finish(request),
        Err(AuthError::ClaimAssertionFailed(ClaimError::Missing {
            field: ClaimField::LoginKubernetes
        }))
    );
}

#[test]
fn refresh_or_login_turns_a_failure_into_a_forced_login() {
    let (session, _) = Session::start(
        repository(),
        TryReason::WhoAmICommand,
        environment(true),
        Goal::RefreshOrLogin,
    );
    let (session, request) =
        session.advance(Reply::Stored(stored("garbage", "garbage", Some("r"))));
    assert!(matches!(request, Request::ClearStore));
    assert!(session.repository().force);
    let (_, request) = session.advance(Reply::Done);
    expect_get(request, DISCOVERY_URL);
    // The same failure ends a plain refresh.
    let (session, _) =
        Session::start(repository(), TryReason::SsoCommand, environment(true), Goal::Refresh);
    let (_, request) = session.advance(Reply::Stored(stored("garbage", "garbage", Some("r"))));
    assert_eq!(expect_finish(request), Err(AuthError::Token(TokenFault::Split)));
}

#[test]
fn login_without_force_goes_through_a_refresh_and_reads_again() {
    let fresh = token_expiring(NOW + 7200);
    let (session, request) =
        Session::start(repository(), TryReason::LoginCommand, environment(true), Goal::Login);
    assert!(matches!(request, Request::ReadStore));
    let (session, request) = session.advance(Reply::Stored(stored(&fresh, &fresh, Some("r"))));
    assert!(matches!(request, Request::Write { .. }));
    let (session, request) = session.advance(Reply::Done);
    assert!(matches!(request, Request::ReadStore));
    let (session, request) = session.advance(Reply::Stored(stored(&fresh, &fresh, Some("r"))));
    assert!(matches!(request, Request::Write { .. }));
    let (_, request) = session.advance(Reply::Done);
    assert_eq!(expect_finish(request), Ok(()));
}

#[test]
fn device_flow_ends_on_expiry_denial_and_other_errors() {
    let start = || {
        let mut forced = repository();
        forced.force();
        let (session, _) =
            Session::start(forced, TryReason::LoginCommand, environment(true), Goal::Login);
        let (session, _) = session.advance(Reply::Done);
        login_up_to_poll(session)
    };
    let (_, request) = start().advance(Reply::Body("{\"error\":\"expired_token\"}".to_string()));
    assert_eq!(expect_finish(request), Err(AuthError::DeviceFlowExpired));
    let (_, request) = start().advance(Reply::Body("{\"error\":\"access_denied\"}".to_string()));
    assert_eq!(expect_finish(request), Err(AuthError::DeviceFlowDenied));
    let (_, request) = start().advance(Reply::Body(
        "{\"error\":\"slow_down\",\"error_description\":\"too fast\"}".to_string(),
    ));
    assert_eq!(
        expect_finish(request),
        Err(AuthError::Provider {
            error: "slow_down".to_string(),
            description: "too fast".to_string()
        })
    );
    let (_, request) = start().advance(Reply::Body("<html>".to_string()));
    assert_eq!(expect_finish(request), Err(AuthError::MalformedResponse));
    let (_, request) = start().advance(Reply::Failed("connection reset".to_string()));
    assert_eq!(expect_finish(request), Err(AuthError::Transport("connection reset".to_string())));
    let (_, request) = start().advance(Reply::Body("{}".to_string()));
    assert!(matches!(request, Request::Wait { seconds: 5 }));
}

#[test]
fn device_flow_needs_an_endpoint_a_url_and_an_interval() {
    let begin = || {
        let mut forced = repository();
        forced.force();
        let (session, _) =
            Session::start(forced, TryReason::LoginCommand, environment(true), Goal::Login);
        let (session, _) = session.advance(Reply::Done);
        session
    };
    let no_endpoint = DISCOVERY.replace("\"device_authorization_endpoint\"", "\"other\"");
    let (_, request) = begin().advance(Reply::Body(no_endpoint));
    assert_eq!(
        expect_finish(request),
        Err(AuthError::Config(ConfigFault::MissingDeviceAuthorizationEndpoint))
    );
    let to_code = || {
        let (session, _) = begin().advance(Reply::Body(DISCOVERY.to_string()));
        let (session, _) = session.advance(Reply::Stored(StoredTokens::empty()));
        session
    };
    let no_url = "{\"device_code\":\"d\",\"user_code\":\"u\",\"expires_in\":1,\"interval\":5}";
    let (_, request) = to_code().advance(Reply::Body(no_url.to_string()));
    assert_eq!(expect_finish(request), Err(AuthError::Config(ConfigFault::MissingVerificationUrl)));
    let bad_url = "{\"device_code\":\"d\",\"user_code\":\"u\",\"verification_url\":\"nonsense\",\
        \"expires_in\":1,\"interval\":5}";
    let (_, request) = to_code().advance(Reply::Body(bad_url.to_string()));
    assert_eq!(expect_finish(request), Err(AuthError::BadVerificationUrl));
    for interval in ["0", "null", "\"soon\"", "\"\""] {
        let body = format!(
            "{{\"device_code\":\"d\",\"user_code\":\"u\",\
             \"verification_url\":\"https://auth.example/a\",\"expires_in\":\"900\",\
             \"interval\":{}}}",
            interval
        );
        let (session, request) = to_code().advance(Reply::Body(body));
        assert!(matches!(request, Request::Prompt { .. }));
        let (_, request) = session.advance(Reply::Done);
        assert_eq!(expect_finish(request), Err(AuthError::BadInterval));
    }
    let text_interval = "{\"device_code\":\"d\",\"user_code\":\"u\",\
        \"verification_url\":\"https://auth.example/a\",\"expires_in\":\"900\",\"interval\":\"7\"}";
    let (session, _) = to_code().advance(Reply::Body(text_interval.to_string()));
    let (_, request) = session.advance(Reply::Done);
    assert!(matches!(request, Request::Wait { seconds: 7 }));
}

#[test]
fn store_failures_end_the_session() {
    let (session, _) =
        Session::start(repository(), TryReason::SsoCommand, environment(true), Goal::Refresh);
    let (_, request) = session.advance(Reply::Failed("permission denied".to_string()));
    assert_eq!(expect_finish(request), Err(AuthError::Io("permission denied".to_string())));
    let fresh = token_expiring(NOW + 7200);
    let (session, _) =
        Session::start(repository(), TryReason::SsoCommand, environment(true), Goal::Refresh);
    let (session, _) = session.advance(Reply::Stored(stored(&fresh, &fresh, Some("r"))));
    let (_, request) = session.advance(Reply::Failed("disk full".to_string()));
    assert_eq!(expect_finish(request), Err(AuthError::Io("disk full".to_string())));
    let (session, _) =
        Session::start(repository(), TryReason::SsoCommand, environment(true), Goal::Refresh);
    let (_, request) = session.advance(Reply::Body("unasked".to_string()));
    assert_eq!(expect_finish(request), Err(AuthError::Protocol));
}

#[test]
fn sessions_need_a_configured_client() {
    let due = token_expiring(NOW);
    let mut nowhere = repository();
    nowhere.auth_n.discovery_uri = None;
    nowhere.force();
    let (session, _) = Session::start(
        nowhere.clone(),
        TryReason::LoginCommand,
        environment(true),
        Goal::Login,
    );
    let (_, request) = session.advance(Reply::Done);
    assert_eq!(expect_finish(request), Err(AuthError::Config(ConfigFault::MissingDiscoveryUri)));
    let (session, _) =
        Session::start(nowhere, TryReason::LoginCommand, environment(true), Goal::Refresh);
    let (_, request) = session.advance(Reply::Stored(stored(&due, &due, Some("r"))));
    assert_eq!(expect_finish(request), Err(AuthError::Config(ConfigFault::MissingDiscoveryUri)));

    let mut nobody = repository();
    nobody.auth_n.client_id = None;
    nobody.force();
    let (session, _) = Session::start(
        nobody.clone(),
        TryReason::LoginCommand,
        environment(true),
        Goal::Refresh,
    );
    let (session, _) = session.advance(Reply::Stored(stored(&due, &due, Some("r"))));
    let (_, request) = session.advance(Reply::Body(DISCOVERY.to_string()));
    assert_eq!(expect_finish(request), Err(AuthError::Config(ConfigFault::MissingClientId)));
    let (session, _) =
        Session::start(nobody, TryReason::LoginCommand, environment(true), Goal::Login);
    let (session, _) = session.advance(Reply::Done);
    let (session, _) = session.advance(Reply::Body(DISCOVERY.to_string()));
    let (_, request) = session.advance(Reply::Stored(StoredTokens::empty()));
    assert_eq!(expect_finish(request), Err(AuthError::Config(ConfigFault::MissingClientId)));
}

#[test]
fn login_asks_again_for_the_scopes_that_were_granted() {
    let mut forced = repository();
    forced.force();
    let (session, _) =
        Session::start(forced, TryReason::LoginCommand, environment(true), Goal::Login);
    let (session, _) = session.advance(Reply::Done);
    let (session, _) = session.advance(Reply::Body(DISCOVERY.to_string()));
    let granted = token_with("{\"scope\":\"openid org:org_1\"}");
    let (session, request) = session.advance(Reply::Stored(StoredTokens {
        access_token: Some(granted),
        id_token: None,
        refresh_token: None,
    }));
    match request {
        Request::Post { form: sent, .. } => {
            assert_eq!(
                sent.get("scope"),
                Some(&"email login:cli offline_access openid org:org_1".to_string())
            );
        }
        other => panic!("expected the device code request, got {:?}", other),
    }
    // The repository itself asks for no more than before.
    assert_eq!(session.repository().scopes.len(), 4);
    assert_eq!(session.reason().to_string(), "for `login` command");
}
