use desktop_mcp::security::auth::validate_bearer_token;

#[test]
fn test_bearer_token_validation() {
    let expected = "my-super-secret-token";

    // Valid header
    let valid_header = "Bearer my-super-secret-token";
    assert!(validate_bearer_token(Some(valid_header), expected));

    // Invalid token
    let invalid_header = "Bearer wrong-token";
    assert!(!validate_bearer_token(Some(invalid_header), expected));

    // Missing Bearer prefix
    let malformed = "my-super-secret-token";
    assert!(!validate_bearer_token(Some(malformed), expected));

    // Missing header
    assert!(!validate_bearer_token(None, expected));
}

#[test]
fn test_empty_token_admits_every_request() {
    assert!(validate_bearer_token(None, ""));
    assert!(validate_bearer_token(Some("garbage"), ""));
}

#[test]
fn test_token_comparison_trims_whitespace() {
    assert!(validate_bearer_token(Some("Bearer   tok \t"), " tok"));
    assert!(validate_bearer_token(Some("Bearer tok\u{3000}"), "tok"));
    assert!(!validate_bearer_token(Some("Bearer t ok"), "tok"));
}

#[test]
fn test_scheme_is_case_sensitive_and_needs_space() {
    assert!(!validate_bearer_token(Some("bearer tok"), "tok"));
    assert!(!validate_bearer_token(Some("Bearertok"), "tok"));
    assert!(!validate_bearer_token(Some("Basic tok"), "tok"));
}

#[test]
fn test_own_token_header_accepted() {
    for t in ["a", "secret-token-123", " padded "] {
        let header = format!("Bearer {}", t);
        assert!(validate_bearer_token(Some(&header), t));
    }
}
