use base64::Engine;
use p6m::claims::Claims;
use p6m::decode::TokenFault;
use p6m::string_map::StringMap;

fn token_with(claims: &str) -> String {
    let encode = |text: &str| base64::engine::general_purpose::URL_SAFE_NO_PAD.encode(text);
    format!("{}.{}.{}", encode("{\"alg\":\"none\"}"), encode(claims), "signature")
}

#[test]
fn decode_reads_every_claim() {
    let token = token_with(
        "{\"exp\":1700000000,\"scope\":\"openid email\",\"email\":\"a@b.com\",\
         \"https://p6m.dev/v1/permission/login/kubernetes\":\"true\",\
         \"https://p6m.dev/v1/orgs\":{\"org_2\":\"Beta\",\"org_1\":\"Acme\"},\
         \"https://p6m.dev/v1/org\":\"Acme\",\
         \"https://p6m.dev/v1/permission\":[\"read\",\"write\"],\
         \"https://p6m.dev/v1/roles\":[],\"sub\":\"ignored\"}",
    );
    let claims = Claims::decode(&token).unwrap();
    assert_eq!(claims.exp, Some(1700000000));
    assert_eq!(claims.scope, Some("openid email".to_string()));
    assert_eq!(claims.email, Some("a@b.com".to_string()));
    assert_eq!(claims.login_kubernetes, Some("true".to_string()));
    let mut orgs = StringMap::new();
    orgs.insert("org_1".to_string(), "Acme".to_string());
    orgs.insert("org_2".to_string(), "Beta".to_string());
    assert_eq!(claims.orgs, Some(orgs));
    let orgs = claims.orgs.unwrap();
    assert_eq!(orgs.key_at(0), "org_1");
    assert_eq!(orgs.key_at(1), "org_2");
    assert_eq!(claims.org, Some("Acme".to_string()));
    assert_eq!(claims.permissions, Some(vec!["read".to_string(), "write".to_string()]));
    assert_eq!(claims.roles, Some(vec![]));
}

#[test]
fn decode_takes_missing_and_null_claims_for_none() {
    let claims = Claims::decode(&token_with("{\"email\":null}")).unwrap();
    assert_eq!(claims.exp, None);
    assert_eq!(claims.scope, None);
    assert_eq!(claims.email, None);
    assert_eq!(claims.orgs, None);
    assert_eq!(claims.permissions, None);
}

#[test]
fn decode_reports_what_is_wrong_with_a_token() {
    assert_eq!(Claims::decode("no-dots").unwrap_err(), TokenFault::Split);
    assert_eq!(Claims::decode("one.dot").unwrap_err(), TokenFault::Split);
    assert_eq!(Claims::decode("a.!!!.c").unwrap_err(), TokenFault::Decode);
    let not_json = format!(
        "h.{}.s",
        base64::engine::general_purpose::URL_SAFE_NO_PAD.encode("not json")
    );
    assert_eq!(Claims::decode(&not_json).unwrap_err(), TokenFault::Decode);
    assert_eq!(Claims::decode(&token_with("[1,2]")).unwrap_err(), TokenFault::Parse);
    assert_eq!(Claims::decode(&token_with("{\"exp\":\"soon\"}")).unwrap_err(), TokenFault::Parse);
    assert_eq!(Claims::decode(&token_with("{\"exp\":1.5}")).unwrap_err(), TokenFault::Parse);
    assert_eq!(Claims::decode(&token_with("{\"email\":5}")).unwrap_err(), TokenFault::Parse);
    assert_eq!(
        Claims::decode(&token_with("{\"https://p6m.dev/v1/roles\":[\"a\",1]}")).unwrap_err(),
        TokenFault::Parse
    );
    assert_eq!(
        Claims::decode(&token_with("{\"https://p6m.dev/v1/orgs\":{\"a\":1}}")).unwrap_err(),
        TokenFault::Parse
    );
    assert_eq!(
        Claims::decode(&token_with("{\"https://p6m.dev/v1/orgs\":[]}")).unwrap_err(),
        TokenFault::Parse
    );
}

#[test]
fn claims_part_lies_between_first_and_last_dot() {
    // The claims part of "h.<claims>.x.s" is "<claims>.x", which is no base64.
    let good = token_with("{\"email\":\"a@b.com\"}");
    assert!(Claims::decode(&good).is_ok());
    let parts: Vec<&str> = good.split('.').collect();
    let four = format!("{}.{}.x.{}", parts[0], parts[1], parts[2]);
    assert_eq!(Claims::decode(&four).unwrap_err(), TokenFault::Decode);
}

#[test]
fn of_token_is_lenient() {
    assert_eq!(Claims::of_token(None).email, None);
    let bad = "garbage".to_string();
    let claims = Claims::of_token(Some(&bad));
    assert_eq!(claims.email, None);
    assert_eq!(claims.exp, None);
    let good = token_with("{\"email\":\"a@b.com\",\"exp\":-5}");
    let claims = Claims::of_token(Some(&good));
    assert_eq!(claims.email, Some("a@b.com".to_string()));
    assert_eq!(claims.exp, Some(-5));
}

#[test]
fn from_json_reads_a_document_built_by_calls() {
    let mut object = serde_json::Map::new();
    object.insert("email".to_string(), serde_json::Value::String("x@y.z".to_string()));
    object.insert("exp".to_string(), serde_json::Value::Number(serde_json::Number::from(42)));
    object.insert(
        "https://p6m.dev/v1/roles".to_string(),
        serde_json::Value::Array(vec![serde_json::Value::String("admin".to_string())]),
    );
    let claims = Claims::from_json(&serde_json::Value::Object(object)).unwrap();
    assert_eq!(claims.email, Some("x@y.z".to_string()));
    assert_eq!(claims.exp, Some(42));
    assert_eq!(claims.roles, Some(vec!["admin".to_string()]));
    assert!(Claims::from_json(&serde_json::Value::Null).is_none());
    assert!(Claims::from_json(&serde_json::Value::Array(vec![])).is_none());
    let mut too_big = serde_json::Map::new();
    too_big.insert(
        "exp".to_string(),
        serde_json::Value::Number(serde_json::Number::from(u64::MAX)),
    );
    assert!(Claims::from_json(&serde_json::Value::Object(too_big)).is_none());
}
