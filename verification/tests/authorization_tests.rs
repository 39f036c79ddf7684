use shipcat::authorization::AuthorizationSource;
use shipcat::errors::ValidationError;

#[test]
fn valid_authorization_builds() {
    let src = AuthorizationSource {
        allowed_audiences: Some(vec!["internal".into(), "partners".into()]),
        allow_anonymous: Some(true),
        allow_invalid_tokens: Some(true),
        required_scopes: Some(vec!["read".into()]),
        allow_cookies: None,
    };
    let auth = src.build().unwrap();
    assert_eq!(auth.allowed_audiences, vec!["internal".to_string(), "partners".to_string()]);
    assert!(auth.allow_anonymous);
    assert!(auth.allow_invalid_tokens);
    assert_eq!(auth.required_scopes, vec!["read".to_string()]);
    assert!(!auth.allow_cookies);
}

#[test]
fn empty_audiences_fail_to_build() {
    let src = AuthorizationSource {
        allowed_audiences: Some(vec![]),
        ..Default::default()
    };
    assert_eq!(src.build().unwrap_err(), ValidationError::EmptyAllowedAudiences);
    let absent = AuthorizationSource::default();
    assert_eq!(absent.build().unwrap_err(), ValidationError::EmptyAllowedAudiences);
}

#[test]
fn invalid_tokens_without_anonymous_fail_to_build() {
    let src = AuthorizationSource {
        allowed_audiences: Some(vec!["internal".into()]),
        allow_anonymous: Some(false),
        allow_invalid_tokens: Some(true),
        ..Default::default()
    };
    assert_eq!(src.build().unwrap_err(), ValidationError::InvalidTokenPolicy);
    // Absent anonymous reads as false and is refused the same way.
    let src = AuthorizationSource {
        allowed_audiences: Some(vec!["internal".into()]),
        allow_anonymous: None,
        allow_invalid_tokens: Some(true),
        ..Default::default()
    };
    assert_eq!(src.build().unwrap_err(), ValidationError::InvalidTokenPolicy);
}

#[test]
fn defaults_fill_absent_fields() {
    let src = AuthorizationSource {
        allowed_audiences: Some(vec!["internal".into()]),
        ..Default::default()
    };
    let auth = src.build().unwrap();
    assert!(!auth.allow_anonymous);
    assert!(!auth.allow_invalid_tokens);
    assert!(auth.required_scopes.is_empty());
}
