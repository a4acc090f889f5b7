use p6m::claims::{ClaimError, ClaimField, ClaimValue, Claims};
use p6m::string_map::StringMap;

#[test]
fn test_empty_array_match() {
    let actual = Claims {
        roles: Some(vec![]),
        ..Default::default()
    };
    let desired = Claims {
        roles: Some(vec![]),
        ..Default::default()
    };

    // Both arrays are empty.
    assert!(actual.assert_against(&desired).is_ok());
}

#[test]
fn test_empty_array_mismatch() {
    let actual = Claims {
        roles: Some(vec!["user".to_string()]),
        ..Default::default()
    };
    let desired = Claims {
        roles: Some(vec![]),
        ..Default::default()
    };

    // Desired is empty but actual is not.
    assert!(actual.assert_against(&desired).is_err());
}

#[test]
fn test_wildcard_array_match() {
    let actual = Claims {
        roles: Some(vec!["superadmins".to_string()]),
        ..Default::default()
    };
    let desired = Claims {
        roles: Some(vec!["*".to_string()]),
        ..Default::default()
    };

    // The wildcard asks for a non-empty array.
    assert!(actual.assert_against(&desired).is_ok());
}

#[test]
fn test_wildcard_array_mismatch() {
    let actual = Claims {
        roles: Some(vec![]),
        ..Default::default()
    };
    let desired = Claims {
        roles: Some(vec!["*".to_string()]),
        ..Default::default()
    };

    // The actual array is empty.
    assert!(actual.assert_against(&desired).is_err());
}

#[test]
fn test_exact_array_match() {
    let actual = Claims {
        roles: Some(vec!["admin".to_string(), "user".to_string()]),
        ..Default::default()
    };
    let desired = Claims {
        roles: Some(vec!["admin".to_string(), "user".to_string()]),
        ..Default::default()
    };

    // The arrays match exactly.
    assert!(actual.assert_against(&desired).is_ok());
}

#[test]
fn test_exact_array_mismatch() {
    let actual = Claims {
        roles: Some(vec!["admin".to_string(), "user".to_string()]),
        ..Default::default()
    };
    let desired = Claims {
        roles: Some(vec!["user".to_string(), "admin".to_string()]), // order differs
        ..Default::default()
    };

    // The order matters.
    assert!(actual.assert_against(&desired).is_err());
}

#[test]
fn test_non_array_field_match() {
    let actual = Claims {
        email: Some("test@example.com".to_string()),
        ..Default::default()
    };
    let desired = Claims {
        email: Some("test@example.com".to_string()),
        ..Default::default()
    };

    // The emails match.
    assert!(actual.assert_against(&desired).is_ok());
}

#[test]
fn test_non_array_field_mismatch() {
    let actual = Claims {
        email: Some("actual@example.com".to_string()),
        ..Default::default()
    };
    let desired = Claims {
        email: Some("desired@example.com".to_string()),
        ..Default::default()
    };

    // The emails differ.
    assert!(actual.assert_against(&desired).is_err());
}

#[test]
fn test_missing_field() {
    // Desired has login_kubernetes set but actual does not.
    let actual = Claims::default();
    let desired = Claims {
        login_kubernetes: Some("true".to_string()),
        ..Default::default()
    };

    // login_kubernetes is missing in actual.
    assert!(actual.assert_against(&desired).is_err());
}

#[test]
fn test_merge_no_change_with_empty_incoming() {
    let mut existing = Claims {
        email: Some("test@example.com".to_string()),
        login_kubernetes: Some("true".to_string()),
        ..Default::default()
    };
    // Incoming claims are all None, so nothing should change.
    let incoming = Claims::default();
    existing.merge(incoming);
    assert_eq!(existing.email, Some("test@example.com".to_string()));
    assert_eq!(existing.login_kubernetes, Some("true".to_string()));
}

#[test]
fn test_merge_overwrites_non_null() {
    let mut existing = Claims {
        email: Some("old@example.com".to_string()),
        login_kubernetes: Some("false".to_string()),
        roles: Some(vec!["admin".to_string()]),
        ..Default::default()
    };

    let incoming = Claims {
        email: Some("new@example.com".to_string()),
        // login_kubernetes is None in incoming, so it should not override what is there.
        login_kubernetes: None,
        roles: Some(vec!["superadmin".to_string()]),
        ..Default::default()
    };

    existing.merge(incoming);
    assert_eq!(existing.email, Some("new@example.com".to_string()));
    // The login_kubernetes of before should remain unchanged.
    assert_eq!(existing.login_kubernetes, Some("false".to_string()));
    // Roles should be overwritten.
    assert_eq!(existing.roles, Some(vec!["superadmin".to_string()]));
}

#[test]
fn test_merge_orgs_update() {
    let mut existing_orgs = StringMap::new();
    existing_orgs.insert("org1".to_string(), "member".to_string());

    let mut incoming_orgs = StringMap::new();
    incoming_orgs.insert("org2".to_string(), "admin".to_string());

    let mut existing = Claims {
        orgs: Some(existing_orgs),
        ..Default::default()
    };

    let incoming = Claims {
        orgs: Some(incoming_orgs),
        ..Default::default()
    };

    existing.merge(incoming);

    let mut expected = StringMap::new();
    expected.insert("org2".to_string(), "admin".to_string());
    // The entire orgs field is replaced by the incoming value.
    assert_eq!(existing.orgs, Some(expected));
}

#[test]
fn test_merge_partial_fields() {
    let mut existing = Claims {
        email: Some("initial@example.com".to_string()),
        scope: Some("read".to_string()),
        org: Some("org1".to_string()),
        ..Default::default()
    };

    let incoming = Claims {
        scope: Some("write".to_string()),
        // Incoming org is None; the org of before should remain.
        org: None,
        ..Default::default()
    };

    existing.merge(incoming);
    assert_eq!(existing.email, Some("initial@example.com".to_string()));
    assert_eq!(existing.scope, Some("write".to_string()));
    assert_eq!(existing.org, Some("org1".to_string()));
}

#[test]
fn merge_keeps_email_and_replaces_roles() {
    let mut base = Claims {
        email: Some("a@b.com".to_string()),
        roles: Some(vec!["admin".to_string()]),
        ..Default::default()
    };
    let incoming = Claims {
        email: None,
        roles: Some(vec!["superadmin".to_string()]),
        ..Default::default()
    };
    base.merge(incoming);
    assert_eq!(base.email, Some("a@b.com".to_string()));
    assert_eq!(base.roles, Some(vec!["superadmin".to_string()]));
}

#[test]
fn wildcard_passes_for_superadmin_and_fails_for_empty() {
    let desired = Claims {
        roles: Some(vec!["*".to_string()]),
        ..Default::default()
    };
    let granted = Claims {
        roles: Some(vec!["superadmin".to_string()]),
        ..Default::default()
    };
    assert_eq!(granted.assert_against(&desired), Ok(()));
    let none = Claims {
        roles: Some(vec![]),
        ..Default::default()
    };
    assert_eq!(
        none.assert_against(&desired),
        Err(ClaimError::Mismatch {
            field: ClaimField::Roles,
            expected: ClaimValue::List(vec!["*".to_string()]),
            actual: ClaimValue::List(vec![]),
        })
    );
}

#[test]
fn missing_field_is_reported_by_name() {
    let actual = Claims::default();
    let desired = Claims {
        login_kubernetes: Some("true".to_string()),
        ..Default::default()
    };
    let error = actual.assert_against(&desired).unwrap_err();
    assert_eq!(
        error,
        ClaimError::Missing {
            field: ClaimField::LoginKubernetes
        }
    );
    assert_eq!(error.field(), ClaimField::LoginKubernetes);
}

#[test]
fn first_failing_field_in_order_is_reported() {
    let actual = Claims {
        email: Some("a@b.com".to_string()),
        exp: Some(5),
        scope: Some("x".to_string()),
        ..Default::default()
    };
    let desired = Claims {
        scope: Some("y".to_string()),
        exp: Some(6),
        email: Some("a@b.com".to_string()),
        ..Default::default()
    };
    assert_eq!(
        actual.assert_against(&desired),
        Err(ClaimError::Mismatch {
            field: ClaimField::Exp,
            expected: ClaimValue::Number(6),
            actual: ClaimValue::Number(5),
        })
    );
}

#[test]
fn orgs_are_compared_as_whole_maps() {
    let mut one = StringMap::new();
    one.insert("org1".to_string(), "Acme".to_string());
    let mut same = StringMap::new();
    same.insert("org1".to_string(), "Acme".to_string());
    let mut other = StringMap::new();
    other.insert("org1".to_string(), "Acme".to_string());
    other.insert("org2".to_string(), "Beta".to_string());
    let actual = Claims {
        orgs: Some(one),
        ..Default::default()
    };
    let desired_same = Claims {
        orgs: Some(same),
        ..Default::default()
    };
    let desired_other = Claims {
        orgs: Some(other),
        ..Default::default()
    };
    assert!(actual.assert_against(&desired_same).is_ok());
    let error = actual.assert_against(&desired_other).unwrap_err();
    assert_eq!(error.field(), ClaimField::Orgs);
}

#[test]
fn nothing_desired_is_always_satisfied() {
    let actual = Claims {
        email: Some("a@b.com".to_string()),
        roles: Some(vec!["x".to_string()]),
        ..Default::default()
    };
    assert!(actual.assert_against(&Claims::default()).is_ok());
    assert!(Claims::default().assert_against(&Claims::default()).is_ok());
    assert!(actual.clone().assert_against(&actual).is_ok());
}
