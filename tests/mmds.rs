use microvm_node::mmds::{accept_token_response, needs_rotation, MMDSClientError, MmdsToken, MMDS_TOKEN_TTL_SECS};

#[test]
fn token_is_trimmed_body() {
    let t = accept_token_response(200, "  abc123\n", 1000).unwrap();
    assert_eq!(t.token, "abc123");
    assert_eq!(t.expiry_secs, 1000 + MMDS_TOKEN_TTL_SECS);
    assert_eq!(MMDS_TOKEN_TTL_SECS, 4 * 60 * 60);
}

#[test]
fn token_errors() {
    assert_eq!(accept_token_response(401, "abc", 0).unwrap_err(), MMDSClientError::RequestError);
    assert_eq!(accept_token_response(200, "", 0).unwrap_err(), MMDSClientError::ResponseSchemaParseError);
    assert_eq!(accept_token_response(200, "x", u64::MAX - 1).unwrap().expiry_secs, u64::MAX);
}

#[test]
fn rotation_at_expiry() {
    assert!(needs_rotation(None, 0));
    let t = MmdsToken { token: "t".into(), expiry_secs: 100 };
    assert!(!needs_rotation(Some(&t), 99));
    assert!(needs_rotation(Some(&t), 100));
}
