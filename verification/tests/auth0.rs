use p6m::api::{room_for_pair, room_for_segments, ApiFault, Client, Method, Request};
use p6m::auth0::{App, Apps, AuthN, AuthToken, CaFault, ConfigFault};
use p6m::string_map::StringMap;

fn auth_n() -> AuthN {
    AuthN {
        client_id: Some("client".to_string()),
        discovery_uri: None,
        token_preference: None,
        params: None,
        acr_values: None,
        apps_uri: Some("https://auth.example/api".to_string()),
    }
}

fn form(pairs: &[(&str, &str)]) -> StringMap {
    let mut map = StringMap::new();
    for (key, value) in pairs {
        map.insert(key.to_string(), value.to_string());
    }
    map
}

fn app(name: &str, scopes: &[&str]) -> App {
    App {
        name: name.to_string(),
        org: Some("acme".to_string()),
        client_id: "cid".to_string(),
        url: "https://k8s.example".to_string(),
        origins: vec![],
        scopes: scopes.iter().map(|s| s.to_string()).collect(),
        metadata: StringMap::new(),
        auth_n: None,
    }
}

#[test]
fn login_form_holds_client_scope_and_params() {
    let mut config = auth_n();
    assert_eq!(
        config.login_form_data(&"openid email".to_string()),
        Ok(form(&[("client_id", "client"), ("scope", "openid email")]))
    );
    assert_eq!(
        config.login_form_data(&"  \t ".to_string()),
        Ok(form(&[("client_id", "client")]))
    );
    assert_eq!(config.login_form_data(&String::new()), Ok(form(&[("client_id", "client")])));
    config.params = Some(form(&[("audience", "https://api.example/"), ("scope", "override")]));
    assert_eq!(
        config.login_form_data(&"openid".to_string()),
        Ok(form(&[
            ("audience", "https://api.example/"),
            ("client_id", "client"),
            ("scope", "override")
        ]))
    );
    config.client_id = None;
    assert_eq!(
        config.login_form_data(&"openid".to_string()),
        Err(ConfigFault::MissingClientId)
    );
    assert_eq!(config.apps_uri(), Some("https://auth.example/api".to_string()));
}

#[test]
fn device_code_form_names_the_grant() {
    let mut config = auth_n();
    assert_eq!(
        config.device_code_form_data(&"dev".to_string()),
        Ok(form(&[
            ("client_id", "client"),
            ("code", "dev"),
            ("device_code", "dev"),
            ("grant_type", "urn:ietf:params:oauth:grant-type:device_code")
        ]))
    );
    config.acr_values = Some(vec!["a".to_string(), "b".to_string()]);
    let with_hints = config.device_code_form_data(&"dev".to_string()).unwrap();
    assert_eq!(with_hints.get("acr_values"), Some(&"a b".to_string()));
    assert_eq!(with_hints.len(), 5);
    config.client_id = None;
    assert_eq!(
        config.device_code_form_data(&"dev".to_string()),
        Err(ConfigFault::MissingClientId)
    );
}

#[test]
fn refresh_form_names_the_grant() {
    let mut config = auth_n();
    assert_eq!(
        config.refresh_form_data(&"r-1".to_string()),
        Ok(form(&[
            ("client_id", "client"),
            ("grant_type", "refresh_token"),
            ("refresh_token", "r-1")
        ]))
    );
    config.client_id = None;
    assert_eq!(config.refresh_form_data(&"r-1".to_string()), Err(ConfigFault::MissingClientId));
}

#[test]
fn machine_name_replaces_what_is_neither_letter_nor_number() {
    let mut one = app("My Cluster (dev)", &[]);
    assert_eq!(one.display_name(), "My Cluster (dev)");
    assert_eq!(one.machine_name(), "My-Cluster--dev-");
    one.metadata.insert("ClaimName".to_string(), "dev_east-1 é9".to_string());
    assert_eq!(one.machine_name(), "dev-east-1-é9");
    assert_eq!(one.url(), "https://k8s.example");
    assert_eq!(one.org(), Some("acme".to_string()));
}

#[test]
fn ca_is_the_decoded_fragment_of_the_marked_origin() {
    let mut one = app("a", &[]);
    assert_eq!(one.ca(), Err(CaFault::NotFound));
    one.origins = vec![
        "https://other.example/#x".to_string(),
        "https://meta.p6m.dev/certificate-authority#LS0t%2BLS0t%0A".to_string(),
        "https://meta.p6m.dev/certificate-authority#second".to_string(),
    ];
    assert_eq!(one.ca(), Ok("LS0t+LS0t\n".to_string()));
    assert_eq!(one.ca_origin(), Some(&one.origins[1]));
    one.origins = vec!["https://meta.p6m.dev/certificate-authority".to_string()];
    assert_eq!(one.ca(), Err(CaFault::NoFragment));
    one.origins = vec!["https://meta.p6m.dev/certificate-authority#%FF".to_string()];
    assert_eq!(one.ca(), Err(CaFault::BadEncoding));
    assert_eq!(App::ca_from(None, None), Err(CaFault::BadUrl));
    assert_eq!(App::ca_from(Some(None), Some("x".to_string())), Err(CaFault::NoFragment));
    assert_eq!(App::ca_from(Some(Some("f".to_string())), None), Err(CaFault::BadEncoding));
    assert_eq!(
        App::ca_from(Some(Some("f".to_string())), Some("ca".to_string())),
        Ok("ca".to_string())
    );
}

#[test]
fn contain_scope_keeps_the_order() {
    let apps = Apps(vec![
        app("one", &["login:kubernetes", "x"]),
        app("two", &["x"]),
        app("three", &["login:kubernetes"]),
    ]);
    let kube = apps.contain_scope("login:kubernetes");
    let names: Vec<String> = kube.0.iter().map(|a| a.display_name()).collect();
    assert_eq!(names, vec!["one", "three"]);
    assert_eq!(kube.contain_scope("nothing").0.len(), 0);
}

#[test]
fn apps_are_read_from_json() {
    let body = "[{\"name\":\"Cluster\",\"org\":\"acme\",\"clientId\":\"cid\",\
        \"url\":\"https://k8s.example\",\"origins\":[\"o\"],\"scopes\":[\"login:kubernetes\"],\
        \"metadata\":{\"ClaimName\":\"cluster-auth0\"},\
        \"authN\":{\"clientId\":\"inner\",\"tokenPreference\":\"access_token\",\
        \"params\":{\"audience\":\"a\"},\"acrValues\":[\"x\"]}},\
        {\"name\":\"Plain\",\"clientId\":\"c2\",\"url\":\"u\",\"origins\":[],\"scopes\":[],\
        \"metadata\":{}}]";
    let apps = Apps::parse(body).unwrap();
    assert_eq!(apps.0.len(), 2);
    let first = &apps.0[0];
    assert_eq!(first.name, "Cluster");
    assert_eq!(first.org, Some("acme".to_string()));
    assert_eq!(first.metadata.get("ClaimName"), Some(&"cluster-auth0".to_string()));
    let inner = first.auth_n.as_ref().unwrap();
    assert_eq!(inner.client_id, Some("inner".to_string()));
    assert_eq!(inner.token_preference, Some(AuthToken::Access));
    assert_eq!(inner.acr_values, Some(vec!["x".to_string()]));
    assert_eq!(inner.params.as_ref().unwrap().get("audience"), Some(&"a".to_string()));
    assert_eq!(inner.discovery_uri, None);
    assert!(apps.0[1].auth_n.is_none());
    assert_eq!(apps.0[1].org, None);
    assert!(Apps::parse("{}").is_none());
    assert!(Apps::parse("[{\"name\":\"x\"}]").is_none());
    assert!(Apps::parse("not json").is_none());
    assert_eq!(Apps::parse("[]").unwrap().0.len(), 0);
    let bad_preference = "[{\"name\":\"P\",\"clientId\":\"c\",\"url\":\"u\",\"origins\":[],\
        \"scopes\":[],\"metadata\":{},\"authN\":{\"tokenPreference\":\"bearer\"}}]";
    assert!(Apps::parse(bad_preference).is_none());
}

#[test]
fn client_builds_the_request_for_apps() {
    let client = Client::new()
        .with_base_url(&"https://auth.example/api//".to_string())
        .with_token(Some("tok".to_string()));
    assert_eq!(client.authorization(), Ok("Bearer tok".to_string()));
    let request = client.apps().unwrap();
    let prepared = request.send().unwrap();
    assert_eq!(prepared.method, Method::Get);
    assert_eq!(prepared.url, "https://auth.example/api/apps");
    assert_eq!(prepared.authorization, Some("Bearer tok".to_string()));
    assert_eq!(prepared.payload, None);
    assert_eq!(Client::new().authorization(), Err(ApiFault::MissingToken));
    assert_eq!(Client::new().apps().unwrap_err(), ApiFault::MissingToken);
    assert_eq!(
        Client::new().with_token(Some("t".to_string())).apps().unwrap_err(),
        ApiFault::MissingBaseUrl
    );
}

#[test]
fn request_builder_extends_path_and_query() {
    let client = Client::new().with_base_url(&"https://h.example/base".to_string());
    let request = Request::new(&client)
        .with_endpoint("orgs/a b/apps")
        .unwrap()
        .with_query("q", "x y&z")
        .unwrap()
        .with_method(&Method::Post)
        .with_payload("{\"a\":1}")
        .with_allow_conflict(true);
    let prepared = request.send().unwrap();
    assert_eq!(prepared.url, "https://h.example/base/orgs/a%20b/apps?q=x+y%26z");
    assert_eq!(prepared.method, Method::Post);
    assert_eq!(prepared.payload, Some("{\"a\":1}".to_string()));
    assert_eq!(prepared.authorization, None);
    let bad = Client::new().with_base_url(&"not a url".to_string());
    assert_eq!(Request::new(&bad).with_endpoint("x").unwrap_err(), ApiFault::BadBaseUrl);
    let mail = Client::new().with_base_url(&"mailto:a@b.com".to_string());
    assert_eq!(Request::new(&mail).with_endpoint("x").unwrap_err(), ApiFault::NoPathSegments);
    assert_eq!(Request::new(&client).with_query("a", "b").unwrap_err(), ApiFault::MissingUrl);
    assert_eq!(Request::new(&client).send().unwrap_err(), ApiFault::MissingMethod);
    assert_eq!(
        Request::new(&client).with_method(&Method::Get).send().unwrap_err(),
        ApiFault::MissingUrl
    );
}

#[test]
fn answers_are_taken_by_status() {
    let client = Client::new();
    let plain = Request::new(&client);
    assert_eq!(plain.receive(200, "body".to_string()), Ok(Some("body".to_string())));
    assert_eq!(plain.receive(302, "".to_string()), Ok(Some("".to_string())));
    assert_eq!(plain.receive(401, "no".to_string()), Err(ApiFault::Unauthorized));
    assert_eq!(
        plain.receive(409, "conflict".to_string()),
        Err(ApiFault::Status {
            status: 409,
            body: "conflict".to_string()
        })
    );
    assert_eq!(
        plain.receive(500, "boom".to_string()),
        Err(ApiFault::Status {
            status: 500,
            body: "boom".to_string()
        })
    );
    let lenient = Request::new(&client).with_allow_conflict(true);
    assert_eq!(lenient.receive(409, "conflict".to_string()), Ok(None));
    assert_eq!(lenient.receive(401, "no".to_string()), Err(ApiFault::Unauthorized));
    let strict = Request::new(&client).with_allow_conflict(false);
    assert_eq!(
        strict.receive(409, "c".to_string()),
        Err(ApiFault::Status {
            status: 409,
            body: "c".to_string()
        })
    );
}

#[test]
fn app_is_found_by_client_id() {
    let mut first = app("one", &[]);
    first.client_id = "a".to_string();
    let mut second = app("two", &[]);
    second.client_id = "b".to_string();
    let mut third = app("three", &[]);
    third.client_id = "a".to_string();
    let apps = Apps(vec![first, second, third]);
    assert_eq!(apps.app("a").map(|a| a.name), Some("one".to_string()));
    assert_eq!(apps.app("b").map(|a| a.name), Some("two".to_string()));
    assert!(apps.app("c").is_none());
    assert!(Apps(vec![]).app("a").is_none());
}

#[test]
fn urls_stay_countable_in_32_bits() {
    let limit = u32::MAX as usize;
    let none: Vec<String> = vec![];
    let one = vec!["a".to_string()];
    let two = vec!["ab".to_string(), "é".to_string()];
    assert!(room_for_segments(0, &none));
    assert!(room_for_segments(limit - 1, &none));
    assert!(!room_for_segments(limit, &none));
    // One byte takes three at most, with a slash before and one after a drive letter.
    assert!(room_for_segments(limit - 6, &one));
    assert!(!room_for_segments(limit - 5, &one));
    // "ab" and "é" are two bytes each.
    assert!(room_for_segments(limit - 17, &two));
    assert!(!room_for_segments(limit - 16, &two));
    assert!(!room_for_segments(usize::MAX, &two));
    assert!(room_for_pair(0, "", ""));
    assert!(room_for_pair(limit - 4, "", ""));
    assert!(!room_for_pair(limit - 3, "", ""));
    // "k" is one byte and "vé" three.
    assert!(room_for_pair(limit - 16, "k", "vé"));
    assert!(!room_for_pair(limit - 15, "k", "vé"));
    assert!(!room_for_pair(usize::MAX, "k", "v"));
}
