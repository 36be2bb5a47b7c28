use microvm_node::auth::{
    claims_accepted, sign_token, token_claims, validate_authentication,
    validate_authentication_secrets_as_bytes, AuthKey, TokenClaims,
};
use microvm_node::manager::{validate_auth, ManagerError};

#[test]
fn test_sign_token() {
    let token = sign_token(&AuthKey::new_from_slice(b"secret"), None).unwrap();
    assert!(!token.is_empty());
    assert!(token.split(".").count() == 3);
    assert!(token.starts_with("eyJ"));
}

#[test]
fn test_validate_authentication() {
    let secret = AuthKey::new_from_slice(b"secret");
    let token = sign_token(&secret, Some("my_aud".to_string())).unwrap();

    assert!(validate_authentication(&token, &secret, Some("my_aud")));
}

#[test]
fn test_validate_authentication_invalid() {
    let secret = AuthKey::new_from_slice(b"secret");
    let token = sign_token(&secret, None).unwrap();
    assert!(!validate_authentication(&token, &secret, Some("some_aud")));
    assert!(!validate_authentication_secrets_as_bytes(
        &token,
        b"wrong_secret",
        Some("some_aud"),
    ));
}

#[test]
fn token_without_audience_passes_global_call() {
    let secret = AuthKey::new_from_slice(b"secret");
    let token = sign_token(&secret, None).unwrap();
    assert!(validate_authentication(&token, &secret, None));
    assert!(!validate_authentication_secrets_as_bytes(&token, b"other", None));
}

#[test]
fn garbage_token_is_rejected() {
    assert!(!validate_authentication_secrets_as_bytes("not.a.token", b"secret", None));
    assert!(!validate_authentication_secrets_as_bytes("", b"secret", None));
}

#[test]
fn wrong_audience_is_unauthenticated() {
    let secret = AuthKey::new_from_slice(b"hmac-key");
    let token = sign_token(&secret, Some("instance-a".to_string())).unwrap();
    assert_eq!(
        validate_auth(Some(&secret), &token, Some("instance-b")),
        Err(ManagerError::Auth)
    );
    assert_eq!(validate_auth(Some(&secret), &token, Some("instance-a")), Ok(()));
    assert_eq!(validate_auth(None, "anything", Some("instance-b")), Ok(()));
}

#[test]
fn claims_window_is_strict() {
    let c = TokenClaims {
        audience: Some("a".to_string()),
        expiration: Some(200),
        not_before: Some(100),
    };
    assert!(claims_accepted(&c, Some("a"), 150));
    assert!(!claims_accepted(&c, Some("a"), 100));
    assert!(!claims_accepted(&c, Some("a"), 200));
    assert!(!claims_accepted(&c, Some("b"), 150));
    assert!(!claims_accepted(&c, None, 150));
    let open = TokenClaims { audience: None, expiration: None, not_before: None };
    assert!(!claims_accepted(&open, None, 5));
}

#[test]
fn token_claims_window() {
    let c = token_claims(Some("x".to_string()), 1000);
    assert_eq!(c.expiration, Some(4600));
    assert_eq!(c.not_before, Some(940));
    assert_eq!(c.audience.as_deref(), Some("x"));
    let early = token_claims(None, 10);
    assert_eq!(early.not_before, Some(0));
    let late = token_claims(None, u64::MAX - 5);
    assert_eq!(late.expiration, Some(u64::MAX));
}
