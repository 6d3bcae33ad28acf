use rext_core::token_service::{Claims, TokenService, UNAUTHORIZED};

#[test]
fn test_extract_token_from_header_valid() {
    let token = "test-token";
    let header = format!("Bearer {}", token);
    let result = TokenService::extract_token_from_header(Some(&header));
    assert!(result.is_ok());
    assert_eq!(result.unwrap(), token);
}

#[test]
fn test_extract_token_from_header_missing() {
    let result = TokenService::extract_token_from_header(None);
    assert!(result.is_err());
    assert_eq!(result.unwrap_err().status_code, UNAUTHORIZED);
}

#[test]
fn test_extract_token_from_header_invalid_format() {
    let result = TokenService::extract_token_from_header(Some("InvalidFormat test-token"));
    assert!(result.is_err());
    assert_eq!(result.unwrap_err().status_code, UNAUTHORIZED);
}

#[test]
fn bearer_prefix_is_exact() {
    assert_eq!(TokenService::extract_token_from_header(Some("Bearer ")).unwrap(), "");
    assert_eq!(
        TokenService::extract_token_from_header(Some("bearer x")).unwrap_err().message,
        "Invalid Authorization header format"
    );
    assert_eq!(TokenService::extract_token_from_header(None).unwrap_err().message, "Missing Authorization header");
    assert_eq!(UNAUTHORIZED, 401);
}

#[test]
fn expired_claims_are_refused() {
    let claims = Claims { sub: "u".to_string(), exp: 100, session_id: "s".to_string() };
    assert_eq!(TokenService::check_expiry(claims.clone(), 100).unwrap().sub, "u");
    let e = TokenService::check_expiry(claims, 101).unwrap_err();
    assert_eq!((e.message.as_str(), e.status_code), ("Token expired", UNAUTHORIZED));
}
