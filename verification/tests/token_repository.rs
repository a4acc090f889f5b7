use base64::Engine;
use p6m::auth0::{App, AuthN, AuthToken, ConfigFault};
use p6m::claims::Claims;
use p6m::decode::TokenFault;
use p6m::error::AuthError;
use p6m::openid::AccessTokenResponse;
use p6m::string_map::StringMap;
use p6m::token_repository::{
    describe_identity, find_organization, within_margin, AuthReason, Moment, StoredTokens,
    TokenRepository, TryAuthReason, TryReason,
};

fn token_with(claims: &str) -> String {
    let encode = |text: &str| base64::engine::general_purpose::URL_SAFE_NO_PAD.encode(text);
    format!("{}.{}.{}", encode("{}"), encode(claims), "s")
}

fn auth_n() -> AuthN {
    AuthN {
        client_id: Some("client".to_string()),
        discovery_uri: Some("https://auth.example/.well-known/openid-configuration".to_string()),
        token_preference: None,
        params: None,
        acr_values: None,
        apps_uri: None,
    }
}

fn stored(access: Option<&str>, id: Option<&str>, refresh: Option<&str>) -> StoredTokens {
    StoredTokens {
        access_token: access.map(|t| t.to_string()),
        id_token: id.map(|t| t.to_string()),
        refresh_token: refresh.map(|t| t.to_string()),
    }
}

fn at(seconds: i64) -> Moment {
    Moment { seconds, nanos: 0 }
}

#[test]
fn new_repository_asks_for_the_default_scopes_in_order() {
    let repository = TokenRepository::new(&auth_n(), "/home/u/.p6m/auth");
    assert_eq!(
        repository.scopes.to_vec(),
        vec!["email", "login:cli", "offline_access", "openid"]
    );
    assert_eq!(repository.default_scopes, "openid email offline_access login:cli");
    assert!(!repository.force);
    assert_eq!(repository.organization_id, None);
    assert_eq!(repository.auth_root(), "/home/u/.p6m/auth");
    assert_eq!(repository.desired_claims.email, None);
}

#[test]
fn with_scope_keeps_scopes_sorted_and_unique_and_merges_claims() {
    let mut repository = TokenRepository::new(&auth_n(), "/a");
    repository.with_scope(
        "login:kubernetes",
        Claims {
            login_kubernetes: Some("true".to_string()),
            ..Default::default()
        },
    );
    repository.with_scope("email", Claims::default());
    assert_eq!(
        repository.scopes.to_vec(),
        vec!["email", "login:cli", "login:kubernetes", "offline_access", "openid"]
    );
    assert_eq!(repository.desired_claims.login_kubernetes, Some("true".to_string()));
    repository.force();
    assert!(repository.force);
}

#[test]
fn token_paths_use_the_three_file_names() {
    let repository = TokenRepository::new(&auth_n(), "/home/u/.p6m/auth");
    assert_eq!(repository.token_path(AuthToken::Access), "/home/u/.p6m/auth/ACCESS_TOKEN");
    assert_eq!(repository.token_path(AuthToken::Id), "/home/u/.p6m/auth/ID_TOKEN");
    assert_eq!(repository.token_path(AuthToken::Refresh), "/home/u/.p6m/auth/REFRESH_TOKEN");
    assert_eq!(AuthToken::Refresh.to_string(), "REFRESH_TOKEN");
}

#[test]
fn is_logged_in_asks_for_identity_and_access_token_only() {
    let repository = TokenRepository::new(&auth_n(), "/a");
    assert!(repository.is_logged_in(&stored(Some("a"), Some("i"), None)));
    assert!(repository.is_logged_in(&stored(Some("a"), Some("i"), Some("r"))));
    assert!(!repository.is_logged_in(&stored(None, Some("i"), Some("r"))));
    assert!(!repository.is_logged_in(&stored(Some("a"), None, Some("r"))));
    assert!(!repository.is_logged_in(&StoredTokens::empty()));
}

#[test]
fn margin_is_one_hour() {
    let t: i64 = 1_700_000_000;
    assert!(within_margin(t, at(t - 59 * 60)));
    assert!(!within_margin(t, at(t - 61 * 60)));
    assert!(!within_margin(t, at(t - 3600)));
    assert!(within_margin(t, Moment { seconds: t - 3600, nanos: 1 }));
    assert!(within_margin(t, at(t)));
    assert!(within_margin(i64::MIN, at(0)));
    assert!(!within_margin(i64::MAX, at(i64::MAX - 3601)));
}

#[test]
fn should_refresh_looks_at_both_tokens() {
    let repository = TokenRepository::new(&auth_n(), "/a");
    let t: i64 = 1_700_000_000;
    let fresh = token_with(&format!("{{\"exp\":{}}}", t + 7200));
    let access = token_with(&format!("{{\"exp\":{}}}", t));
    let both_fresh = stored(Some(&fresh), Some(&fresh), Some("r"));
    assert_eq!(repository.should_refresh(&both_fresh, at(t)), Ok(false));
    let access_due = stored(Some(&access), Some(&fresh), Some("r"));
    assert_eq!(repository.should_refresh(&access_due, at(t - 59 * 60)), Ok(true));
    assert_eq!(repository.should_refresh(&access_due, at(t - 61 * 60)), Ok(false));
    let id_due = stored(Some(&fresh), Some(&access), Some("r"));
    assert_eq!(repository.should_refresh(&id_due, at(t - 59 * 60)), Ok(true));
    // Without tokens, and without an expiry in them, the time of asking stands in.
    assert_eq!(repository.should_refresh(&StoredTokens::empty(), at(t)), Ok(true));
    let no_exp = token_with("{}");
    assert_eq!(
        repository.should_refresh(&stored(Some(&no_exp), Some(&no_exp), None), at(t)),
        Ok(true)
    );
    assert_eq!(
        repository.should_refresh(&stored(Some(&fresh), Some("garbage"), None), at(t)),
        Err(AuthError::Token(TokenFault::Split))
    );
    let far = token_with(&format!("{{\"exp\":{}}}", i64::MAX));
    assert_eq!(
        repository.should_refresh(&stored(Some(&far), Some(&fresh), None), at(t)),
        Err(AuthError::ExpiryOutOfRange)
    );
}

#[test]
fn read_expiration_defaults_to_now() {
    let repository = TokenRepository::new(&auth_n(), "/a");
    let token = token_with("{\"exp\":123}");
    let tokens = stored(Some(&token), None, None);
    assert_eq!(repository.read_expiration(AuthToken::Access, &tokens, at(77)), Ok(123));
    assert_eq!(repository.read_expiration(AuthToken::Id, &tokens, at(77)), Ok(77));
    assert_eq!(repository.read_token(AuthToken::Access, &tokens), Some(&token));
    assert_eq!(repository.read_token(AuthToken::Refresh, &tokens), None);
    assert!(repository.read_claims(AuthToken::Id, &tokens).unwrap().is_none());
    assert_eq!(
        repository.read_claims(AuthToken::Access, &tokens).unwrap().unwrap().exp,
        Some(123)
    );
}

#[test]
fn write_touches_only_the_tokens_of_the_bundle() {
    let repository = TokenRepository::new(&auth_n(), "/a");
    let bundle = AccessTokenResponse {
        access_token: Some("new-access".to_string()),
        id_token: Some("new-id".to_string()),
        ..Default::default()
    };
    let files = repository.write_tokens(&bundle);
    assert_eq!(
        files,
        vec![
            (AuthToken::Access, "new-access".to_string()),
            (AuthToken::Id, "new-id".to_string())
        ]
    );
    let mut directory = stored(Some("old-access"), Some("old-id"), Some("old-refresh"));
    directory.write(&bundle);
    assert_eq!(
        directory,
        stored(Some("new-access"), Some("new-id"), Some("old-refresh"))
    );
    assert_eq!(
        repository.read_token(AuthToken::Refresh, &directory),
        Some(&"old-refresh".to_string())
    );
    let all = repository.read_tokens(&directory);
    assert_eq!(all.refresh_token, Some("old-refresh".to_string()));
    assert_eq!(all.access_token, Some("new-access".to_string()));
    assert_eq!(all.error, None);
    assert_eq!(repository.write_tokens(&AccessTokenResponse::default()), vec![]);
}

#[test]
fn with_organization_finds_the_organization_by_id_or_name() {
    let id = token_with(
        "{\"https://p6m.dev/v1/orgs\":{\"org_b\":\"Acme\",\"org_a\":\"Beta\"},\"email\":\"a@b.com\"}",
    );
    let tokens = stored(Some("a"), Some(&id), Some("r"));
    let mut by_name = TokenRepository::new(&auth_n(), "/auth");
    assert_eq!(by_name.with_organization(&"Acme".to_string(), &tokens), Ok(()));
    assert_eq!(by_name.organization_id, Some("org_b".to_string()));
    assert_eq!(by_name.auth_root(), "/auth/org_b");
    assert!(by_name.scopes.to_vec().contains(&"org:org_b".to_string()));
    assert_eq!(by_name.desired_claims.org, Some("Acme".to_string()));
    let mut by_id = TokenRepository::new(&auth_n(), "/auth");
    assert_eq!(by_id.with_organization(&"org_a".to_string(), &tokens), Ok(()));
    assert_eq!(by_id.organization_id, Some("org_a".to_string()));
    assert_eq!(by_id.desired_claims.org, Some("org_a".to_string()));
}

#[test]
fn with_organization_fails_without_login_or_membership() {
    let id = token_with("{\"https://p6m.dev/v1/orgs\":{\"org_a\":\"Beta\"}}");
    let mut repository = TokenRepository::new(&auth_n(), "/auth");
    assert_eq!(
        repository.with_organization(&"Beta".to_string(), &stored(Some("a"), Some(&id), None)),
        Err(AuthError::NotLoggedIn)
    );
    assert_eq!(
        repository.with_organization(&"Gamma".to_string(), &stored(Some("a"), Some(&id), Some("r"))),
        Err(AuthError::OrganizationNotFound)
    );
    let none = token_with("{}");
    assert_eq!(
        repository.with_organization(&"Beta".to_string(), &stored(Some("a"), Some(&none), Some("r"))),
        Err(AuthError::OrganizationNotFound)
    );
    assert_eq!(
        repository.with_organization(&"Beta".to_string(), &stored(Some("a"), Some("x.y"), Some("r"))),
        Err(AuthError::Token(TokenFault::Split))
    );
    assert_eq!(repository.auth_root(), "/auth");
    assert_eq!(repository.organization_id, None);
}

#[test]
fn find_organization_takes_the_first_match_in_key_order() {
    let mut orgs = StringMap::new();
    orgs.insert("b".to_string(), "x".to_string());
    orgs.insert("a".to_string(), "b".to_string());
    // "b" is the name of organization "a" and the id of organization "b".
    assert_eq!(find_organization(&orgs, "b"), Some("a".to_string()));
    assert_eq!(find_organization(&orgs, "x"), Some("b".to_string()));
    assert_eq!(find_organization(&orgs, "nobody"), None);
}

#[test]
fn with_app_starts_a_sub_identity() {
    let mut repository = TokenRepository::new(&auth_n(), "/auth");
    repository.with_scope("extra", Claims {
        email: Some("a@b.com".to_string()),
        ..Default::default()
    });
    let mut app = App {
        name: "Cluster".to_string(),
        org: None,
        client_id: "abc123".to_string(),
        url: "https://k8s.example".to_string(),
        origins: vec![],
        scopes: vec![],
        metadata: StringMap::new(),
        auth_n: None,
    };
    assert_eq!(repository.with_app(&app), Err(ConfigFault::MissingAuthN));
    assert_eq!(repository.auth_root(), "/auth");
    let mut other = auth_n();
    other.client_id = Some("other-client".to_string());
    app.auth_n = Some(other);
    assert_eq!(repository.with_app(&app), Ok(()));
    assert_eq!(repository.auth_root(), "/auth/app_abc123");
    assert_eq!(repository.auth_n.client_id, Some("other-client".to_string()));
    assert_eq!(repository.scopes.len(), 0);
    assert_eq!(repository.default_scopes, "");
    assert_eq!(repository.desired_claims.email, None);
}

#[test]
fn scope_str_adds_granted_scopes() {
    let mut repository = TokenRepository::new(&auth_n(), "/auth");
    let access = token_with("{\"scope\":\"openid zeta alpha\"}");
    let scope = repository.scope_str(&stored(Some(&access), None, None));
    assert_eq!(scope, "alpha email login:cli offline_access openid zeta");
    assert_eq!(repository.scopes.len(), 6);
    let mut plain = TokenRepository::new(&auth_n(), "/auth");
    assert_eq!(
        plain.scope_str(&StoredTokens::empty()),
        "email login:cli offline_access openid"
    );
}

#[test]
fn acr_values_name_organization_scopes_and_configured_hints() {
    let mut config = auth_n();
    config.acr_values = Some(vec!["urn:auth:dev:true".to_string()]);
    let mut repository = TokenRepository::new(&config, "/auth");
    repository.organization_id = Some("org_1".to_string());
    let form = repository.acr_values_form_data(&StoredTokens::empty());
    assert_eq!(
        form,
        vec![(
            "acr_values".to_string(),
            "urn:auth:acr:organization-id:org_1 urn:auth:acr:scope:email \
             urn:auth:acr:scope:login:cli urn:auth:acr:scope:offline_access \
             urn:auth:acr:scope:openid urn:auth:dev:true"
                .to_string()
        )]
    );
}

#[test]
fn to_string_tells_who_is_logged_in() {
    let repository = TokenRepository::new(&auth_n(), "/auth");
    assert_eq!(repository.to_string(&StoredTokens::empty()), "Not logged in");
    assert_eq!(repository.to_string(&stored(None, Some("bad"), None)), "Not logged in");
    let full = token_with(
        "{\"email\":\"a@b.com\",\"https://p6m.dev/v1/org\":\"Acme\",\
         \"https://p6m.dev/v1/permission\":[\"read\",\"write\"]}",
    );
    assert_eq!(
        repository.to_string(&stored(None, Some(&full), None)),
        "Email: a@b.com\nOrganization: Acme\nPermissions: read, write"
    );
    let no_permissions = token_with("{\"email\":\"a@b.com\",\"https://p6m.dev/v1/org\":\"Acme\"}");
    assert_eq!(
        repository.to_string(&stored(None, Some(&no_permissions), None)),
        "Email: a@b.com\nOrganization: Acme\nPermissions: None"
    );
    let email_only = token_with("{\"email\":\"a@b.com\"}");
    assert_eq!(repository.to_string(&stored(None, Some(&email_only), None)), "Email: a@b.com");
    let nothing = token_with("{\"https://p6m.dev/v1/org\":\"Acme\"}");
    assert_eq!(repository.to_string(&stored(None, Some(&nothing), None)), "");
    assert_eq!(describe_identity(&Claims::default()), "");
}

#[test]
fn reasons_read_as_sentences() {
    assert_eq!(TryReason::LoginCommand.to_string(), "for `login` command");
    assert_eq!(TryReason::SsoCommand.to_string(), "for `sso` command");
    assert_eq!(TryReason::WhoAmICommand.to_string(), "for `whoami` command");
    assert_eq!(AuthReason::Forcing.to_string(), "Forcing");
    assert_eq!(AuthReason::Expired.to_string(), "Expired");
    assert_eq!(AuthReason::Assertion.to_string(), "Assertion");
    assert_eq!(
        TryAuthReason::Login((TryReason::LoginCommand, AuthReason::Forcing)).to_string(),
        "Forcing credentials for `login` command"
    );
    assert_eq!(
        TryAuthReason::Refresh((TryReason::WhoAmICommand, AuthReason::Expired)).to_string(),
        "Expired tokens for `whoami` command"
    );
    let app = App {
        name: "Cluster One".to_string(),
        org: None,
        client_id: "c".to_string(),
        url: "u".to_string(),
        origins: vec![],
        scopes: vec![],
        metadata: StringMap::new(),
        auth_n: None,
    };
    assert_eq!(TryReason::LoginTo(app.clone()).to_string(), "to Cluster One");
    assert_eq!(TryReason::RefreshFor(app).to_string(), "for Cluster One");
}

#[test]
fn expiries_are_read_within_the_years_that_can_be_written() {
    let repository = TokenRepository::new(&auth_n(), "/a");
    let first: i64 = -8_334_601_228_800;
    let last: i64 = 8_210_266_876_799;
    let with_exp = |exp: i64| {
        let token = token_with(&format!("{{\"exp\":{}}}", exp));
        stored(Some(&token), None, None)
    };
    assert_eq!(
        repository.read_expiration(AuthToken::Access, &with_exp(first), at(0)),
        Ok(first)
    );
    assert_eq!(
        repository.read_expiration(AuthToken::Access, &with_exp(first - 1), at(0)),
        Err(AuthError::ExpiryOutOfRange)
    );
    assert_eq!(
        repository.read_expiration(AuthToken::Access, &with_exp(last), at(0)),
        Ok(last)
    );
    assert_eq!(
        repository.read_expiration(AuthToken::Access, &with_exp(last + 1), at(0)),
        Err(AuthError::ExpiryOutOfRange)
    );
    assert_eq!(
        repository.read_expiration(AuthToken::Access, &with_exp(i64::MIN), at(0)),
        Err(AuthError::ExpiryOutOfRange)
    );
    // Without an expiry the time of asking stands in, and is held to the same range.
    assert_eq!(
        repository.read_expiration(AuthToken::Id, &with_exp(0), at(last + 1)),
        Err(AuthError::ExpiryOutOfRange)
    );
}
